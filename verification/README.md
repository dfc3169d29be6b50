# terminal_backend

The decision core of a terminal backend, verified with Verus, and the I/O
around it.

- `src/` is the library. `backend` says what a command does to the backend's
  state and which effects it asks for; `mouse` and `mode` encode mouse reports;
  `size` turns pixels into cells; `grid`, `content` and `colors` read the grid
  of the terminal core; `links` finds the link under the mouse; `selection` and
  `event` deal with selections and events.
- `app/` runs the effects: the terminal, the pseudo-terminal, the search through
  the grid and the opening of links. Everything in floating point is there, too.
- `tests/` runs the library with the real terminal core.

`Backend::handle` takes the grid, the selection and the modes of the terminal
and returns an `Outcome`: an action for the application, and effects to be
carried out in their order. Two effects have an answer: `FitGrid` is answered
through `fit_grid`, `FindLink` through `hover`.
