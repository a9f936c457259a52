# bar

A layer-shell status bar for Wayland compositors (collapsed clock and volume,
a launcher that opens on hover, terminals for wifi and bluetooth tools).

- `src/` is the verified library: the launcher (search, selection, keys),
  the bar's state machine and sizes, the color scheme and terminal palette,
  the clock and volume texts, and the sound-server listener's decisions.
- `app/` is the program around it: iced widgets and animation, the
  layer-shell surface, the terminal widget, batteries, and the PulseAudio
  connection.
- `tests/` runs the library on concrete values.
