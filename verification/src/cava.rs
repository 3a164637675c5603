//! Validated numeric settings of the audio visualizer and its enums.

use vstd::prelude::*;

verus! {

/// Smallest accepted bar count.
pub const BAR_COUNT_MIN: u16 = 1;
/// Largest accepted bar count.
pub const BAR_COUNT_MAX: u16 = 256;
/// Smallest accepted framerate.
pub const FRAMERATE_MIN: u32 = 1;
/// Largest accepted framerate.
pub const FRAMERATE_MAX: u32 = 360;
/// Smallest accepted frequency in Hz.
pub const FREQUENCY_MIN: u32 = 1;

/// `v` clamped into `lo..=hi`.
pub open spec fn clamp_int(v: int, lo: int, hi: int) -> int {
    if v < lo {
        lo
    } else if v > hi {
        hi
    } else {
        v
    }
}

/// Frequency bar count, always within 1-256.
#[derive(Debug, Clone, Copy, PartialEq, Eq)]
pub struct BarCount(u16);

impl BarCount {
    /// The stored count.
    pub closed spec fn count(self) -> u16 {
        self.0
    }

    #[verifier::type_invariant]
    spec fn in_range(self) -> bool {
        BAR_COUNT_MIN <= self.0 <= BAR_COUNT_MAX
    }

    /// Creates a bar count, clamping to 1-256.
    pub fn new(value: u16) -> (r: Self)
        ensures
            r.count() == clamp_int(value as int, BAR_COUNT_MIN as int, BAR_COUNT_MAX as int),
    {
        if value < BAR_COUNT_MIN {
            BarCount(BAR_COUNT_MIN)
        } else if value > BAR_COUNT_MAX {
            BarCount(BAR_COUNT_MAX)
        } else {
            BarCount(value)
        }
    }

    /// Returns the inner value.
    pub fn value(self) -> (r: u16)
        ensures
            r == self.count(),
            BAR_COUNT_MIN <= r <= BAR_COUNT_MAX,
    {
        proof {
            use_type_invariant(&self);
        }
        self.0
    }
}

impl Default for BarCount {
    fn default() -> (r: Self)
        ensures
            r.count() == 20,
    {
        BarCount(20)
    }
}

impl From<u16> for BarCount {
    fn from(value: u16) -> (r: Self)
        ensures
            r.count() == clamp_int(value as int, BAR_COUNT_MIN as int, BAR_COUNT_MAX as int),
    {
        BarCount::new(value)
    }
}

impl vstd::std_specs::convert::FromSpecImpl<u16> for BarCount {
    open spec fn obeys_from_spec() -> bool {
        true
    }

    closed spec fn from_spec(v: u16) -> Self {
        BarCount(clamp_int(v as int, BAR_COUNT_MIN as int, BAR_COUNT_MAX as int) as u16)
    }
}

/// Visualization framerate, always within 1-360 fps.
#[derive(Debug, Clone, Copy, PartialEq, Eq)]
pub struct Framerate(u32);

impl Framerate {
    /// The stored framerate.
    pub closed spec fn fps(self) -> u32 {
        self.0
    }

    #[verifier::type_invariant]
    spec fn in_range(self) -> bool {
        FRAMERATE_MIN <= self.0 <= FRAMERATE_MAX
    }

    /// Creates a framerate, clamping to 1-360.
    pub fn new(value: u32) -> (r: Self)
        ensures
            r.fps() == clamp_int(value as int, FRAMERATE_MIN as int, FRAMERATE_MAX as int),
    {
        if value < FRAMERATE_MIN {
            Framerate(FRAMERATE_MIN)
        } else if value > FRAMERATE_MAX {
            Framerate(FRAMERATE_MAX)
        } else {
            Framerate(value)
        }
    }

    /// Returns the inner value.
    pub fn value(self) -> (r: u32)
        ensures
            r == self.fps(),
            FRAMERATE_MIN <= r <= FRAMERATE_MAX,
    {
        proof {
            use_type_invariant(&self);
        }
        self.0
    }
}

impl Default for Framerate {
    fn default() -> (r: Self)
        ensures
            r.fps() == 60,
    {
        Framerate(60)
    }
}

impl From<u32> for Framerate {
    fn from(value: u32) -> (r: Self)
        ensures
            r.fps() == clamp_int(value as int, FRAMERATE_MIN as int, FRAMERATE_MAX as int),
    {
        Framerate::new(value)
    }
}

impl vstd::std_specs::convert::FromSpecImpl<u32> for Framerate {
    open spec fn obeys_from_spec() -> bool {
        true
    }

    closed spec fn from_spec(v: u32) -> Self {
        Framerate(clamp_int(v as int, FRAMERATE_MIN as int, FRAMERATE_MAX as int) as u32)
    }
}

/// Frequency value in Hz, at least 1 Hz.
#[derive(Debug, Clone, Copy, PartialEq, Eq)]
pub struct FrequencyHz(u32);

impl FrequencyHz {
    /// The stored frequency.
    pub closed spec fn hz(self) -> u32 {
        self.0
    }

    #[verifier::type_invariant]
    spec fn in_range(self) -> bool {
        FREQUENCY_MIN <= self.0
    }

    /// Creates a frequency value, clamping to >= 1 Hz.
    pub fn new(value: u32) -> (r: Self)
        ensures
            r.hz() == if value < FREQUENCY_MIN {
                FREQUENCY_MIN
            } else {
                value
            },
    {
        if value < FREQUENCY_MIN {
            FrequencyHz(FREQUENCY_MIN)
        } else {
            FrequencyHz(value)
        }
    }

    /// Returns the inner value.
    pub fn value(self) -> (r: u32)
        ensures
            r == self.hz(),
            FREQUENCY_MIN <= r,
    {
        proof {
            use_type_invariant(&self);
        }
        self.0
    }
}

impl From<u32> for FrequencyHz {
    fn from(value: u32) -> (r: Self)
        ensures
            r.hz() == if value < FREQUENCY_MIN {
                FREQUENCY_MIN
            } else {
                value
            },
    {
        FrequencyHz::new(value)
    }
}

impl vstd::std_specs::convert::FromSpecImpl<u32> for FrequencyHz {
    open spec fn obeys_from_spec() -> bool {
        true
    }

    closed spec fn from_spec(v: u32) -> Self {
        FrequencyHz(if v < FREQUENCY_MIN {
            FREQUENCY_MIN
        } else {
            v
        })
    }
}

/// Visualization rendering style.
#[derive(Debug, Clone, Copy, Default, PartialEq, Eq, Structural)]
pub enum CavaStyle {
    /// Rectangular frequency bars.
    #[default]
    Bars,
    /// Smooth curve connecting bar peaks.
    Wave,
    /// Bars with floating peak indicators that decay over time.
    Peaks,
}

/// Audio capture backend.
#[derive(Debug, Clone, Copy, Default, PartialEq, Eq, Structural)]
pub enum CavaInput {
    /// PipeWire multimedia server.
    #[default]
    PipeWire,
    /// PulseAudio sound server.
    Pulse,
    /// Advanced Linux Sound Architecture.
    Alsa,
    /// JACK Audio Connection Kit.
    Jack,
    /// Named pipe (FIFO) input.
    Fifo,
    /// PortAudio cross-platform library.
    PortAudio,
    /// sndio audio subsystem (BSD).
    Sndio,
    /// Open Sound System (legacy).
    Oss,
    /// Shared memory input.
    Shmem,
    /// Windows audio capture (WASAPI).
    Winscap,
}

/// Bar growth direction relative to the bar's attached screen edge.
#[derive(Debug, Clone, Copy, Default, PartialEq, Eq, Structural)]
pub enum BarDirection {
    /// Bars grow away from the attached edge.
    #[default]
    Normal,
    /// Bars grow toward the attached edge.
    Reverse,
    /// Bars grow symmetrically from center.
    Mirror,
}

/// Clamping is idempotent and keeps every value already in range.
pub proof fn law_clamp_keeps_valid(v: int, lo: int, hi: int)
    requires
        lo <= hi,
    ensures
        lo <= clamp_int(v, lo, hi) <= hi,
        clamp_int(clamp_int(v, lo, hi), lo, hi) == clamp_int(v, lo, hi),
        lo <= v <= hi ==> clamp_int(v, lo, hi) == v,
{
}

} // verus!
