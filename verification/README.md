# The Book Game

A text adventure played in the terminal. A player creates a character
(a name, then a gender), the game remembers them between sessions in an
SQLite save, and a small chiptune plays in the background.

## Layout

- `src/` — the game's rules and data, verified with Verus:
  - `models/` — the player, their gender and its spellings, the game
    state, and menus;
  - `game_engine/` — what keys mean on the main screen, and the opening of
    a session as a state machine (greeting, name entry, gender choice);
  - `music/` — note pitches, the tune, the sample sequencer and the
    play/pause state;
  - `thread_demo/` — a counter app drawn in a terminal frame;
  - `db/` — save locations and table names;
  - `text.rs`, `clock.rs`, `ident.rs`, `input.rs`, `args.rs` — helpers.
- `app/` — the program around it: terminal input and output, the SQLite
  database, the audio device, and floating-point waveforms.
- `tests/` — tests of the library.
