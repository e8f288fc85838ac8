# tui_theme

Colour themes for a terminal spreadsheet viewer, verified with Verus.

- `src/color.rs` – terminal colours.
- `src/scheme.rs` – a colour scheme (one colour per drawn element), the six
  built-in palettes, and the colour of a cell by its kind.
- `src/names.rs` – the case- and separator-insensitive lookup key of a theme name.
- `src/config.rs` – the `[theme]` configuration: the startup theme and the
  user-defined themes.
- `src/theme.rs` – merging user-defined themes onto the built-ins, the set of
  themes the viewer cycles through, and the truecolor warning.
- `src/laws.rs` – properties of theme resolution and cycling, proved once for
  all inputs.
- `app/` – conversions to the drawing library's colours and to the program's
  error type, and reading `COLORTERM`.
