# radio_tui

A terminal internet-radio player for Linux, which plays streams with
[mpv](https://mpv.io/), written as a Verus library with a thin program around
it.

- `src/` is the library, and Verus checks all of it. It holds the station
  list, what every key does, the import of remote station lists, the checks
  on stream URLs, the text field editor, the stream metadata rules, the
  non-terminal part of the screens, mpv's command line and reply matching,
  and the choice of package manager. Each public function has a contract;
  `src/laws.rs` proves properties that span several operations (a selection
  that stays in the list, URLs that stay unique, favorites that stay first,
  imports that add only new stations, and more).
- `app/` is the program: terminal setup and drawing (ratatui, crossterm),
  the mpv process and its control socket, reading and writing
  `~/.config/radio-tui/stations.json` (serde_json), fetching remote lists
  (ureq), and the volume and the EQ, which use floating point. The library
  never does I/O: it queues `Action`s, which the program performs before it
  reports the outcome back.
- `tests/` exercises the library on concrete values.
