//! The layered config property backing every field of the config schema,
//! and the layer operations of the reload cycle (reset -> apply -> commit).
//!
//! A property holds three layers: a compiled default, a value from
//! `config.toml`, and a runtime override set from the GUI or CLI. The
//! effective value is the runtime override if present, else the config
//! value if present, else the default. Watchers of the effective value are
//! modelled by a revision counter that advances once per notification.

use std::marker::PhantomData;
use vstd::prelude::*;

verus! {

/// A value that a config property can hold: it can be copied and compared
/// faithfully with respect to its view.
pub trait ConfigValue: Sized + View {
    /// A copy of this value.
    fn duplicate(&self) -> (r: Self)
        ensures
            r@ == self@,
    ;

    /// Whether two values are the same.
    fn same_value(&self, other: &Self) -> (r: bool)
        ensures
            r == (self@ == other@),
    ;
}

impl ConfigValue for bool {
    fn duplicate(&self) -> (r: Self) {
        *self
    }

    fn same_value(&self, other: &Self) -> (r: bool) {
        *self == *other
    }
}

impl ConfigValue for i32 {
    fn duplicate(&self) -> (r: Self) {
        *self
    }

    fn same_value(&self, other: &Self) -> (r: bool) {
        *self == *other
    }
}

impl ConfigValue for i64 {
    fn duplicate(&self) -> (r: Self) {
        *self
    }

    fn same_value(&self, other: &Self) -> (r: bool) {
        *self == *other
    }
}

impl ConfigValue for u16 {
    fn duplicate(&self) -> (r: Self) {
        *self
    }

    fn same_value(&self, other: &Self) -> (r: bool) {
        *self == *other
    }
}

impl ConfigValue for u32 {
    fn duplicate(&self) -> (r: Self) {
        *self
    }

    fn same_value(&self, other: &Self) -> (r: bool) {
        *self == *other
    }
}

impl ConfigValue for u64 {
    fn duplicate(&self) -> (r: Self) {
        *self
    }

    fn same_value(&self, other: &Self) -> (r: bool) {
        *self == *other
    }
}

impl ConfigValue for String {
    fn duplicate(&self) -> (r: Self) {
        self.clone()
    }

    fn same_value(&self, other: &Self) -> (r: bool) {
        *self == *other
    }
}

/// Which layer the current effective value comes from.
#[derive(Debug, Clone, Copy, PartialEq, Eq, Structural)]
pub enum ValueSource {
    /// No config.toml or runtime value; using compiled default.
    Default,
    /// Set in config.toml with no runtime override.
    Config,
    /// Set via GUI/CLI, no config.toml entry exists for this field.
    RuntimeOnly,
    /// config.toml value exists but runtime takes precedence.
    Overridden,
}

/// The view of an optional value.
pub open spec fn opt_view<T: View>(o: Option<T>) -> Option<T::V> {
    match o {
        Some(v) => Some(v@),
        None => None,
    }
}

/// Layer resolution: runtime > config > default.
pub open spec fn resolve_layers<V>(default: V, config: Option<V>, runtime: Option<V>) -> V {
    match runtime {
        Some(r) => r,
        None => match config {
            Some(c) => c,
            None => default,
        },
    }
}

/// Which layer wins, given which layers are set.
pub open spec fn source_of(has_config: bool, has_runtime: bool) -> ValueSource {
    if has_runtime && has_config {
        ValueSource::Overridden
    } else if has_runtime {
        ValueSource::RuntimeOnly
    } else if has_config {
        ValueSource::Config
    } else {
        ValueSource::Default
    }
}

/// The revision after one more notification (wrapping at `u64::MAX`).
pub open spec fn next_revision(r: u64) -> u64 {
    if r == u64::MAX {
        0
    } else {
        (r + 1) as u64
    }
}

/// The revision after publishing a new effective value: watchers are
/// notified when it differs from the value they last saw, or
/// unconditionally when `force` holds.
pub open spec fn revision_after<V>(rev: u64, last_seen: V, new_effective: V, force: bool) -> u64 {
    if force || last_seen != new_effective {
        next_revision(rev)
    } else {
        rev
    }
}

/// A config value with three layers: default, config.toml, and runtime
/// override. `get()` returns the effective value, which is recomputed from
/// the layers by `set`, `clear_runtime`, `stage_config` and
/// `commit_config_reload`.
pub struct ConfigProperty<T> {
    default: T,
    config: Option<T>,
    runtime: Option<T>,
    effective: T,
    published: T,
    revision: u64,
    i18n_key: Option<&'static str>,
}

impl<T: ConfigValue> ConfigProperty<T> {
    /// The compiled default.
    pub closed spec fn default_view(&self) -> T::V {
        self.default@
    }

    /// The config.toml layer.
    pub closed spec fn config_view(&self) -> Option<T::V> {
        opt_view(self.config)
    }

    /// The runtime override layer.
    pub closed spec fn runtime_view(&self) -> Option<T::V> {
        opt_view(self.runtime)
    }

    /// The effective value last published to watchers.
    pub closed spec fn effective_view(&self) -> T::V {
        self.effective@
    }

    /// The effective value that watchers were last told about.
    pub closed spec fn published_view(&self) -> T::V {
        self.published@
    }

    /// How many times watchers have been notified (wrapping).
    pub closed spec fn revision_count(&self) -> u64 {
        self.revision
    }

    /// The Fluent message ID of the property.
    pub closed spec fn key(&self) -> Option<&'static str> {
        self.i18n_key
    }

    /// The value that layer resolution gives for the current layers.
    pub open spec fn resolved(&self) -> T::V {
        resolve_layers(self.default_view(), self.config_view(), self.runtime_view())
    }

    /// The three layers and the key are unchanged between `self` and `other`.
    pub open spec fn same_layers(&self, other: &Self) -> bool {
        &&& self.default_view() == other.default_view()
        &&& self.config_view() == other.config_view()
        &&& self.runtime_view() == other.runtime_view()
        &&& self.key() == other.key()
    }

    /// Which layer wins for the current layers.
    pub open spec fn source_view(&self) -> ValueSource {
        source_of(self.config_view() is Some, self.runtime_view() is Some)
    }

    /// `new` is `old` after `set(v)`: the runtime layer holds `v`, the
    /// effective value is recomputed and watchers hear of it if it changed.
    pub open spec fn set_step(old: Self, new: Self, v: T::V) -> bool {
        &&& new.default_view() == old.default_view()
        &&& new.config_view() == old.config_view()
        &&& new.runtime_view() == Some(v)
        &&& new.key() == old.key()
        &&& new.effective_view() == new.resolved()
        &&& new.published_view() == new.effective_view()
        &&& new.revision_count() == revision_after(
            old.revision_count(),
            old.published_view(),
            new.effective_view(),
            false,
        )
    }

    /// `new` is `old` after `clear_runtime()`: the runtime layer is empty,
    /// the effective value is recomputed and watchers are always notified.
    pub open spec fn clear_runtime_step(old: Self, new: Self) -> bool {
        &&& new.default_view() == old.default_view()
        &&& new.config_view() == old.config_view()
        &&& new.runtime_view() is None
        &&& new.key() == old.key()
        &&& new.effective_view() == new.resolved()
        &&& new.published_view() == new.effective_view()
        &&& new.revision_count() == next_revision(old.revision_count())
    }

    /// `new` is `old` after `stage_config(v)`: the config layer holds `v`
    /// and the effective value is recomputed without notifying anyone.
    pub open spec fn stage_config_step(old: Self, new: Self, v: T::V) -> bool {
        &&& new.default_view() == old.default_view()
        &&& new.config_view() == Some(v)
        &&& new.runtime_view() == old.runtime_view()
        &&& new.key() == old.key()
        &&& new.effective_view() == new.resolved()
        &&& new.published_view() == old.published_view()
        &&& new.revision_count() == old.revision_count()
    }

    /// `new` is `old` after `stage_runtime(v)`: the runtime layer holds `v`;
    /// the effective value and the watchers are left alone.
    pub open spec fn stage_runtime_step(old: Self, new: Self, v: T::V) -> bool {
        &&& new.default_view() == old.default_view()
        &&& new.config_view() == old.config_view()
        &&& new.runtime_view() == Some(v)
        &&& new.key() == old.key()
        &&& new.effective_view() == old.effective_view()
        &&& new.published_view() == old.published_view()
        &&& new.revision_count() == old.revision_count()
    }

    /// `new` is `old` after `reset_config_layer()`: the config layer is
    /// empty; the effective value and the watchers are left alone.
    pub open spec fn reset_config_step(old: Self, new: Self) -> bool {
        &&& new.default_view() == old.default_view()
        &&& new.config_view() is None
        &&& new.runtime_view() == old.runtime_view()
        &&& new.key() == old.key()
        &&& new.effective_view() == old.effective_view()
        &&& new.published_view() == old.published_view()
        &&& new.revision_count() == old.revision_count()
    }

    /// `new` is `old` after `reset_runtime_layer()`: the runtime layer is
    /// empty; the effective value and the watchers are left alone.
    pub open spec fn reset_runtime_step(old: Self, new: Self) -> bool {
        &&& new.default_view() == old.default_view()
        &&& new.config_view() == old.config_view()
        &&& new.runtime_view() is None
        &&& new.key() == old.key()
        &&& new.effective_view() == old.effective_view()
        &&& new.published_view() == old.published_view()
        &&& new.revision_count() == old.revision_count()
    }

    /// `new` is `old` after `commit_config_reload()`: the layers are kept,
    /// the effective value is recomputed and watchers hear of it if it
    /// changed.
    pub open spec fn commit_step(old: Self, new: Self) -> bool {
        &&& new.same_layers(&old)
        &&& new.effective_view() == old.resolved()
        &&& new.published_view() == old.resolved()
        &&& new.revision_count() == revision_after(
            old.revision_count(),
            old.published_view(),
            old.resolved(),
            false,
        )
    }

    /// Creates a property with the given default value and no i18n key.
    pub fn new(default: T) -> (r: Self)
        ensures
            r.default_view() == default@,
            r.config_view() is None,
            r.runtime_view() is None,
            r.effective_view() == default@,
            r.published_view() == default@,
            r.revision_count() == 0,
            r.key() is None,
    {
        let effective = default.duplicate();
        let published = default.duplicate();
        ConfigProperty {
            default,
            config: None,
            runtime: None,
            effective,
            published,
            revision: 0,
            i18n_key: None,
        }
    }

    /// Creates a property bound to a Fluent key for the settings GUI label
    /// and description.
    pub fn with_i18n_key(default: T, key: &'static str) -> (r: Self)
        ensures
            r.default_view() == default@,
            r.config_view() is None,
            r.runtime_view() is None,
            r.effective_view() == default@,
            r.published_view() == default@,
            r.revision_count() == 0,
            r.key() == Some(key),
    {
        let effective = default.duplicate();
        let published = default.duplicate();
        ConfigProperty {
            default,
            config: None,
            runtime: None,
            effective,
            published,
            revision: 0,
            i18n_key: Some(key),
        }
    }

    /// Fluent message ID for the settings GUI, or `None` for internal fields.
    pub fn i18n_key(&self) -> (r: Option<&'static str>)
        ensures
            r == self.key(),
    {
        self.i18n_key
    }

    /// The effective value after layer resolution (runtime > config > default).
    pub fn get(&self) -> (r: T)
        ensures
            r@ == self.effective_view(),
    {
        self.effective.duplicate()
    }

    /// The compiled default, before any config or runtime layers.
    pub fn default(&self) -> (r: &T)
        ensures
            r@ == self.default_view(),
    {
        &self.default
    }

    /// The raw config.toml value, ignoring runtime and default layers.
    pub fn config(&self) -> (r: Option<T>)
        ensures
            opt_view(r) == self.config_view(),
    {
        match &self.config {
            Some(v) => Some(v.duplicate()),
            None => None,
        }
    }

    /// The raw runtime override value, ignoring config and default layers.
    pub fn runtime(&self) -> (r: Option<T>)
        ensures
            opt_view(r) == self.runtime_view(),
    {
        match &self.runtime {
            Some(v) => Some(v.duplicate()),
            None => None,
        }
    }

    /// How many times watchers have been notified (wrapping).
    pub fn revision(&self) -> (r: u64)
        ensures
            r == self.revision_count(),
    {
        self.revision
    }

    /// Which layer is currently winning.
    pub fn source(&self) -> (r: ValueSource)
        ensures
            r == source_of(self.config_view() is Some, self.runtime_view() is Some),
    {
        let has_runtime = self.runtime.is_some();
        let has_config = self.config.is_some();
        match (has_runtime, has_config) {
            (true, true) => ValueSource::Overridden,
            (true, false) => ValueSource::RuntimeOnly,
            (false, true) => ValueSource::Config,
            (false, false) => ValueSource::Default,
        }
    }

    /// Pure layer resolution: runtime > config > default. No side effects.
    fn resolve(&self) -> (r: T)
        ensures
            r@ == self.resolved(),
    {
        match &self.runtime {
            Some(v) => v.duplicate(),
            None => match &self.config {
                Some(v) => v.duplicate(),
                None => self.default.duplicate(),
            },
        }
    }

    /// Publishes a new effective value; watchers are notified when it
    /// differs from the one they were last told about, or always when
    /// `force` holds.
    fn publish(&mut self, value: T, force: bool)
        ensures
            final(self).same_layers(old(self)),
            final(self).effective_view() == value@,
            final(self).published_view() == value@,
            final(self).revision_count() == revision_after(
                old(self).revision_count(),
                old(self).published_view(),
                value@,
                force,
            ),
    {
        let changed = !self.published.same_value(&value);
        if force || changed {
            self.revision = if self.revision == u64::MAX {
                0
            } else {
                self.revision + 1
            };
        }
        self.published = value.duplicate();
        self.effective = value;
    }

    /// Resolves layers and notifies watchers if the result changed.
    fn flush(&mut self)
        ensures
            Self::commit_step(*old(self), *final(self)),
    {
        let effective = self.resolve();
        self.publish(effective, false);
    }

    /// Sets a runtime override and immediately notifies watchers if the
    /// effective value changed.
    pub fn set(&mut self, value: T)
        ensures
            Self::set_step(*old(self), *final(self), value@),
    {
        self.runtime = Some(value);
        self.flush();
    }

    /// Removes the runtime override and always notifies watchers, even when
    /// the effective value is unchanged.
    pub fn clear_runtime(&mut self)
        ensures
            Self::clear_runtime_step(*old(self), *final(self)),
    {
        self.runtime = None;
        let effective = self.resolve();
        self.publish(effective, true);
    }

    /// Writes to the config layer without notifying anyone. The effective
    /// value is recomputed silently; `commit_config_reload` notifies later.
    pub fn stage_config(&mut self, value: T)
        ensures
            Self::stage_config_step(*old(self), *final(self), value@),
    {
        self.config = Some(value);
        self.effective = self.resolve();
    }

    /// Writes to the runtime layer without notifying anyone and without
    /// recomputing the effective value; `commit_config_reload` does both.
    pub fn stage_runtime(&mut self, value: T)
        ensures
            Self::stage_runtime_step(*old(self), *final(self), value@),
    {
        self.runtime = Some(value);
    }

    /// Stores a runtime value read from a file or sent by the CLI, given
    /// the result of decoding it: a decoded value is staged in the runtime
    /// layer; a value that did not decode leaves the property unchanged and
    /// is reported as `invalid value for '<path>': <detail>`.
    pub fn apply_runtime_decoded(&mut self, decoded: Result<T, String>, path: &str) -> (r: Result<
        (),
        String,
    >)
        ensures
            match decoded {
                Ok(v) => r is Ok && Self::stage_runtime_step(*old(self), *final(self), v@),
                Err(detail) => {
                    &&& r matches Err(msg) && msg@ == invalid_value_message(path@, detail@)
                    &&& *final(self) == *old(self)
                },
            },
    {
        match decoded {
            Ok(v) => {
                self.stage_runtime(v);
                Ok(())
            },
            Err(detail) => Err(
                String::from_str("invalid value for '").concat(path).concat("': ").concat(
                    detail.as_str(),
                ),
            ),
        }
    }

    /// Stores a value read from config.toml in the config layer. Returns
    /// whether a runtime override is active, in which case the change does
    /// not reach the effective value and the caller warns about it.
    pub fn apply_config_value(&mut self, value: T) -> (shadowed: bool)
        ensures
            shadowed == (old(self).runtime_view() is Some),
            Self::stage_config_step(*old(self), *final(self), value@),
    {
        let shadowed = self.runtime.is_some();
        self.stage_config(value);
        shadowed
    }
}

/// Resets the config layer to None without notifying watchers.
///
/// Part of the reload cycle: reset -> apply -> commit. Clearing the config
/// layer allows fields removed from TOML to fall back to their default
/// values after commit.
pub trait ResetConfigLayer {
    /// Clears the config layer value without triggering notifications.
    /// The effective value is NOT recomputed.
    fn reset_config_layer(&mut self);
}

/// Resets the runtime layer to None without notifying watchers.
///
/// Part of the runtime reload cycle: reset -> apply -> commit.
pub trait ResetRuntimeLayer {
    /// Clears the runtime layer value without triggering notifications.
    /// The effective value is NOT recomputed.
    fn reset_runtime_layer(&mut self);
}

/// Commits a config reload by recomputing effective values.
pub trait CommitConfigReload {
    /// Recomputes effective values and notifies watchers only where the
    /// effective value actually changed.
    fn commit_config_reload(&mut self);
}

/// Drops every runtime override, notifying watchers even when the
/// effective value is unchanged.
pub trait ClearAllRuntime {
    /// Drops every runtime override and fires watcher notifications
    /// unconditionally.
    fn clear_all_runtime(&mut self);
}

/// Clears the runtime override at a specific dot-separated path.
pub trait ClearRuntimeByPath {
    /// Returns `Ok(true)` if a value was cleared, `Ok(false)` if no runtime
    /// value existed at that path, and an error if the path matches no field.
    fn clear_runtime_by_path(&mut self, path: &str) -> Result<bool, String>;
}

/// The message of the error for a runtime value that did not decode.
pub open spec fn invalid_value_message(path: Seq<char>, detail: Seq<char>) -> Seq<char> {
    "invalid value for '"@ + path + "': "@ + detail
}

/// The message of the error for a path that names no nested field.
pub open spec fn no_nested_field_message(path: Seq<char>) -> Seq<char> {
    "no nested field at '"@ + path + "'"@
}

impl<T: ConfigValue> ResetConfigLayer for ConfigProperty<T> {
    fn reset_config_layer(&mut self)
        ensures
            ConfigProperty::reset_config_step(*old(self), *final(self)),
    {
        self.config = None;
    }
}

impl<T: ConfigValue> ResetRuntimeLayer for ConfigProperty<T> {
    fn reset_runtime_layer(&mut self)
        ensures
            ConfigProperty::reset_runtime_step(*old(self), *final(self)),
    {
        self.runtime = None;
    }
}

impl<T: ConfigValue> CommitConfigReload for ConfigProperty<T> {
    fn commit_config_reload(&mut self)
        ensures
            ConfigProperty::commit_step(*old(self), *final(self)),
    {
        self.flush();
    }
}

impl<T: ConfigValue> ClearAllRuntime for ConfigProperty<T> {
    fn clear_all_runtime(&mut self)
        ensures
            ConfigProperty::clear_runtime_step(*old(self), *final(self)),
    {
        self.clear_runtime();
    }
}

impl<T: ConfigValue> ClearRuntimeByPath for ConfigProperty<T> {
    fn clear_runtime_by_path(&mut self, path: &str) -> (r: Result<bool, String>)
        ensures
            path@.len() > 0 ==> {
                &&& r matches Err(msg) && msg@ == no_nested_field_message(path@)
                &&& *final(self) == *old(self)
            },
            path@.len() == 0 ==> {
                &&& r == Ok::<bool, String>(old(self).runtime_view() is Some)
                &&& ConfigProperty::clear_runtime_step(*old(self), *final(self))
            },
    {
        if !path.is_empty() {
            let msg = String::from_str("no nested field at '").concat(path).concat("'");
            return Err(msg);
        }
        let had_runtime = self.runtime.is_some();
        self.clear_runtime();
        Ok(had_runtime)
    }
}

/// A schema marker for a config field that has been removed: it keeps the
/// old key recognized while storing nothing, applying nothing and
/// persisting nothing.
pub struct Removed<T>(PhantomData<T>);

impl<T> Clone for Removed<T> {
    fn clone(&self) -> (r: Self) {
        Removed(PhantomData)
    }
}

impl<T> Default for Removed<T> {
    fn default() -> (r: Self) {
        Removed(PhantomData)
    }
}

impl<T> ResetConfigLayer for Removed<T> {
    fn reset_config_layer(&mut self)
        ensures
            *final(self) == *old(self),
    {
    }
}

impl<T> ResetRuntimeLayer for Removed<T> {
    fn reset_runtime_layer(&mut self)
        ensures
            *final(self) == *old(self),
    {
    }
}

impl<T> CommitConfigReload for Removed<T> {
    fn commit_config_reload(&mut self)
        ensures
            *final(self) == *old(self),
    {
    }
}

impl<T> ClearAllRuntime for Removed<T> {
    fn clear_all_runtime(&mut self)
        ensures
            *final(self) == *old(self),
    {
    }
}

impl<T> ClearRuntimeByPath for Removed<T> {
    fn clear_runtime_by_path(&mut self, path: &str) -> (r: Result<bool, String>)
        ensures
            r == Ok::<bool, String>(false),
    {
        Ok(false)
    }
}

/// Reading after writing: after `set(v)` the effective value is `v`,
/// whatever the config and default layers hold, and the runtime layer is
/// reported as winning.
pub proof fn law_set_then_get<T: ConfigValue>(p0: ConfigProperty<T>, p1: ConfigProperty<T>, v: T::V)
    requires
        ConfigProperty::set_step(p0, p1, v),
    ensures
        p1.effective_view() == v,
        p1.source_view() == (if p0.config_view() is Some {
            ValueSource::Overridden
        } else {
            ValueSource::RuntimeOnly
        }),
{
}

/// Clearing the runtime override falls back to the config value, or to the
/// compiled default when config.toml sets nothing, and always notifies
/// watchers.
pub proof fn law_clear_runtime_falls_back<T: ConfigValue>(p0: ConfigProperty<T>, p1: ConfigProperty<T>)
    requires
        ConfigProperty::clear_runtime_step(p0, p1),
    ensures
        p1.effective_view() == (match p0.config_view() {
            Some(c) => c,
            None => p0.default_view(),
        }),
        p1.source_view() == (if p0.config_view() is Some {
            ValueSource::Config
        } else {
            ValueSource::Default
        }),
        p1.revision_count() != p0.revision_count(),
{
}

/// The reload cycle: after resetting both layers, staging what the files now
/// hold (nothing for an absent layer) and committing, the effective value is
/// determined by the default and the files alone, the reported source
/// matches, and watchers are notified exactly when the value differs from
/// the one they last saw.
pub proof fn law_reload_cycle<T: ConfigValue>(
    p0: ConfigProperty<T>,
    p1: ConfigProperty<T>,
    p2: ConfigProperty<T>,
    p3: ConfigProperty<T>,
    p4: ConfigProperty<T>,
    p5: ConfigProperty<T>,
    config: Option<T::V>,
    runtime: Option<T::V>,
)
    requires
        ConfigProperty::reset_config_step(p0, p1),
        ConfigProperty::reset_runtime_step(p1, p2),
        match config {
            Some(c) => ConfigProperty::stage_config_step(p2, p3, c),
            None => p3 == p2,
        },
        match runtime {
            Some(r) => ConfigProperty::stage_runtime_step(p3, p4, r),
            None => p4 == p3,
        },
        ConfigProperty::commit_step(p4, p5),
    ensures
        p5.effective_view() == resolve_layers(p0.default_view(), config, runtime),
        p5.source_view() == source_of(config is Some, runtime is Some),
        p5.revision_count() == revision_after(
            p0.revision_count(),
            p0.published_view(),
            p5.effective_view(),
            false,
        ),
{
}

/// A runtime override survives a reload of config.toml: whatever the new
/// config value, the effective value stays the override.
pub proof fn law_runtime_survives_config_reload<T: ConfigValue>(
    p0: ConfigProperty<T>,
    p1: ConfigProperty<T>,
    p2: ConfigProperty<T>,
    p3: ConfigProperty<T>,
    p4: ConfigProperty<T>,
    v: T::V,
    c: T::V,
)
    requires
        ConfigProperty::set_step(p0, p1, v),
        ConfigProperty::reset_config_step(p1, p2),
        ConfigProperty::stage_config_step(p2, p3, c),
        ConfigProperty::commit_step(p3, p4),
    ensures
        p4.effective_view() == v,
        p4.source_view() == ValueSource::Overridden,
        p4.revision_count() == p1.revision_count(),
{
}

/// Resetting a layer changes neither the effective value nor the watchers
/// until the reload is committed.
pub proof fn law_reset_is_silent<T: ConfigValue>(p0: ConfigProperty<T>, p1: ConfigProperty<T>)
    requires
        ConfigProperty::reset_config_step(p0, p1) || ConfigProperty::reset_runtime_step(p0, p1),
    ensures
        p1.effective_view() == p0.effective_view(),
        p1.revision_count() == p0.revision_count(),
{
}

/// Committing twice in a row notifies watchers at most once: the second
/// commit finds nothing changed.
pub proof fn law_commit_idempotent<T: ConfigValue>(
    p0: ConfigProperty<T>,
    p1: ConfigProperty<T>,
    p2: ConfigProperty<T>,
)
    requires
        ConfigProperty::commit_step(p0, p1),
        ConfigProperty::commit_step(p1, p2),
    ensures
        p2.effective_view() == p1.effective_view(),
        p2.revision_count() == p1.revision_count(),
{
}

/// Setting the value that watchers already see does not notify them again.
pub proof fn law_set_same_value_is_silent<T: ConfigValue>(
    p0: ConfigProperty<T>,
    p1: ConfigProperty<T>,
    v: T::V,
)
    requires
        ConfigProperty::set_step(p0, p1, v),
        p0.published_view() == v,
    ensures
        p1.revision_count() == p0.revision_count(),
{
}

/// Once committed, the reported source names the layer that the effective
/// value comes from.
pub proof fn law_source_names_winning_layer<T: ConfigValue>(p0: ConfigProperty<T>, p1: ConfigProperty<T>)
    requires
        ConfigProperty::commit_step(p0, p1),
    ensures
        p1.source_view() == ValueSource::Default ==> p1.effective_view() == p1.default_view(),
        p1.source_view() == ValueSource::Config ==> Some(p1.effective_view()) == p1.config_view(),
        (p1.source_view() == ValueSource::RuntimeOnly || p1.source_view()
            == ValueSource::Overridden) ==> Some(p1.effective_view()) == p1.runtime_view(),
{
}

/// No layer operation changes the compiled default.
pub proof fn law_default_is_fixed<T: ConfigValue>(p0: ConfigProperty<T>, p1: ConfigProperty<T>, v: T::V)
    requires
        ConfigProperty::set_step(p0, p1, v) || ConfigProperty::clear_runtime_step(p0, p1)
            || ConfigProperty::stage_config_step(p0, p1, v) || ConfigProperty::stage_runtime_step(
            p0,
            p1,
            v,
        ) || ConfigProperty::reset_config_step(p0, p1) || ConfigProperty::reset_runtime_step(
            p0,
            p1,
        ) || ConfigProperty::commit_step(p0, p1),
    ensures
        p1.default_view() == p0.default_view(),
{
}

} // verus!
