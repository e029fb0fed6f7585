# iota_view

The view layer of a terminal text editor, verified with Verus: the window onto
a text buffer, the rule that scrolls it to keep the cursor on screen, and the
cells it paints (text lines, status bar, dirty marker, message, cursor).

- `src/` is the verified library. The view holds its own state and describes
  what it wants done: buffer operations (`view::BufferOp`, `view::Step`) and
  screen cells (`render::Cell`). What the buffer answers comes back as
  arguments.
  - `text_object.rs`: marks and text objects, the terms of buffer operations.
  - `scroll.rs`: the scrolling rule and its properties.
  - `render.rs`: drawing a line, the status area, clearing.
  - `view.rs`: the `View` itself.
  - `width.rs`, `clock.rs`: the calls into `unicode-width` and the clock.
- `app/` performs the operations on a buffer, prints with `rustbox`, uses the
  system clipboard and writes files.
- `tests/` runs the library on concrete values.
