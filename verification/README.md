# tether

Extremely simple bindings to the operating system's web view, for a GUI
application in Rust.

- `src/` is the verified library: the window builder (`options`), the
  lifecycle that lets the single window start at most once, keeps functions
  dispatched before the start and hands every dispatched function to the UI
  thread exactly once after it started (`lifecycle`), the event handler trait
  and the window link (`handler`), and the escaping of text into JavaScript
  string literals (`escape`). The builder, lifecycle, dispatch and escaping
  functions have contracts that fix their results, and the lifecycle and
  escaping laws are proved as proof functions; the default handler methods do
  nothing, and the window link is a token with nothing to state.
- `app/` drives the platform's web view (WebKit2GTK, Cocoa WebKit, EdgeHTML)
  with what the library decides: `start`, `dispatch`, and `eval`/`load` on a
  `Window` through `WindowExt`.
- `tests/` exercises the library on concrete values.
