# ratatui_interact

Interactive components for terminal user interfaces: focus management,
click regions, and the state, event handling and layout of buttons,
checkboxes, text inputs, selects, list pickers, tab views, accordions,
breadcrumbs, file explorers, scrollable panes, step displays, marquees,
word-wrapped paragraphs, toasts and toast stacks.

The library under `src/` is written in Verus, and Verus proves its
contracts: what each state change does, which texts,
styles and rectangles a widget produces for an area, and laws that span
functions (navigation undone by its opposite, toggles undone by a second
toggle, at most one open section in a single-mode accordion, wrapped lines
never wider than the wrapping width, a bouncing marquee staying between its
edges, toasts kept within the stack's capacity).

Calls into `ratatui` (block insets, the layout solver), `unicode-width`,
`regex`, `crossterm` and the standard library (lower-casing, path parents,
the clock) go through small trusted wrappers whose contracts name or state
what those calls return. Writes to the terminal (the mouse-capture
commands) promise nothing of the writer: the library proves which command
it decides on, and the wrapper sends that command.

- `src/` — the verified library.
- `tests/` — tests run against the compiled library.
- `app/` — drawing the widgets with ratatui, converting crossterm events,
  reading directories, floating-point progress bars, and serde forms of
  themes.
