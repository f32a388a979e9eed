# gardum

The rules of a small multiplayer arena game, verified with Verus, and the
program that runs them on the Bevy engine.

- `src/` is the verified library. Every function there carries a contract
  that Verus proves: timers and cooldowns (`time`, `timers`), health and
  statistics (`health`), ability activation (`ability`), heroes and their
  frost bolt (`hero`), effects and pickups (`effect`, `pickup`), collision
  groups (`collision`), movement input (`movement`), the menu (`menu`),
  settings and the command line (`settings`), and the decisions of the
  network layer: message routing and chat (`network::message`), connection
  states (`network`) and world replication (`network::replication`).
  Laws that span several functions are public proof functions beside the
  functions they speak of (their names start with `lemma_`).
- The one call into the engine that the library makes is the advance of a
  timer, in `time.rs`; its contract is trusted and documented there.
- `tests/` runs the library on concrete values.
- `app/` is the program: command line parsing, the settings file, sockets,
  message encoding and the engine systems that hand plain values to the
  library and apply what it returns.
