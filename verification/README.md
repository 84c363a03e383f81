# playwire

Cross-platform OS media controls (MPRIS on Linux, System Media Transport
Controls on Windows, Now Playing on macOS), with the decision logic verified
in Verus.

- `src/` is the verified core: the player configuration, the playback
  snapshot and events, the MPRIS interface model (track ids, metadata,
  method calls, property values, change signals), the SMTC and Now Playing
  settings derived from a snapshot, the metadata cache, and the lifetime of a
  controls handle. Times are whole nanoseconds; the D-Bus microsecond values
  are derived by rounding.
- `app/` is the platform layer: the zbus connection and interfaces, the
  windows-rs and objc2 calls, the public `Duration`/`f64` types and the
  floating-point volume handling, each converting to and from the core.
- `tests/` exercises the core on concrete values.
