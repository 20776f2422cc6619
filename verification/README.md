# proctop

A terminal process monitor whose logic is verified with Verus.

- `src/` is the library. `process` orders and filters the processes, `app` holds the state of the
  monitor and how keys, the mouse and the clock change it, `scene` says what every pane and dialog
  shows, `area` where they go. `search`, `table` and `text` hold the search box, the selected row
  and the texts; `keys` the events. `laws` proves what holds of the monitor as a whole.
- `app/` is the program around it: it reads the system and the terminal, paints, and sends signals.
- `tests/` runs the library together with the crates that it calls.
