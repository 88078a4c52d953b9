# lumicontrol

A verified library for an ambient-light brightness controller: a USB light
sensor (optionally with a relay for a light strip) drives the brightness of
DDC/CI monitors, with smooth retargetable transitions, manual-override
detection, prioritized light rules over time, sun and weather, and redacted
diagnostics.

- `src/` is the library, written in Verus: the device protocol and framing,
  discovery and reconnection, the agent's decisions (device events, commands,
  deadlines, weather schedule, settings replacement, start-up and takeover),
  the monitor worker, settings validation and normalization, migration from
  the first version, the rules, calendar arithmetic and diagnostics redaction.
  Every function carries a contract that Verus proves.
- `tests/` runs the library on concrete values.
- `app/` is the device console program around the library: serial-port I/O,
  JSON encoding with serde, and the floating-point parts of the first
  version's brightness model.
