# wayle-config

Configuration logic for the Wayle desktop shell, written in Verus and
proved against its contracts.

- `src/` is the verified library: the three-layer `ConfigProperty`
  (default, config.toml, runtime override) and its reload cycle, bar module
  names and layout resolution with `extends`, the click-action and
  workspace-action grammars, clamped numeric settings, the built-in theme
  palettes, the capture thread's state machine and frame negotiation, the
  file watcher's debouncing and reload planning, the schema-file checks,
  and the reads the loader makes of TOML documents (`imports`, values at
  dot-separated paths). Laws relating these operations are public proof
  functions named `law_*`.
- `tests/` runs the library on concrete values.
- `app/` holds what cannot be verified: the Wayland capture thread, file
  and directory I/O, the notify/tokio watch loop, JSON-schema generation
  and the serde forms of the library's value types.
