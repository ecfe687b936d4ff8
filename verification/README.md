# stave

A terminal front end for Homebrew. The library in `src/` holds everything the
program decides, each function with its specification and proof; `app/` is
the program around it.

- `src/app.rs`: the interface state, key bindings, replies from the worker,
  and the commands it asks the worker to run, each stated over `AppModel`.
- `src/screen.rs`: what a frame shows (sidebar, rows, titles, popup).
- `src/items.rs`: building rows from `brew list` and `brew outdated`, the
  stable sort by lower-cased name, and the search filter.
- `src/info.rs`: the text of the `brew info` popup.
- `src/run.rs`, `src/worker.rs`: the arguments of each `brew` job, what its
  output becomes, and the worker that decides which job each command runs
  until shutdown. Starting processes is left to the caller.
- `src/theme.rs`, `src/layout.rs`: colors, styles, and the popup's place.
- `src/text.rs`: trimming, substring search, ordering, decimal numbers,
  padding and joining, each with its specification over characters.

`app/` starts the worker thread, runs `brew`, parses its JSON with serde,
reads the theme file, and draws frames with ratatui.
