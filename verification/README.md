# maestro

The verified core of Maestro, a MIDI synthesizer host: a virtual MIDI device
backed by a SoundFont synthesizer, a daemon that runs it in the background,
a WinMM driver, and a settings editor.

- `src/` is the library, verified with Verus: the MIDI gate that holds events
  while the engine is down, the tempo clock, MIDI input routing, the WinMM
  driver's message handling and registration choices, the daemon's decisions
  (configuration diffs, debouncing, idleness), the settings editor's
  conversions and bookkeeping, and the system-integration steps. Each public
  function states its result in its `ensures`; the `law_*` proof functions
  state properties that span several functions.
- `tests/` exercises the library on concrete values.
- `app/` is `maestrod`, the daemon: configuration files, file watching,
  signals and logging around the library's decisions.
