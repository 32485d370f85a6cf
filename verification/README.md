# logazer

Reads the quality of the item under the cursor from screenshots of the game
window: on the row through the quality rhombus it looks for a run of solid
colour about as wide as the rhombus, re-centres it, checks that a rhombus of
that colour is drawn around it, and classifies the colour.

Layout:

- `src/` is the verified library (Verus).
  - `types.rs`: qualities, entities, what a screenshot shows (`Meta`), the
    screen layout and its scaling, screenshots.
  - `imagework.rs`: the library's image types (`Pixmap`, `Graymap`), frames
    decoded from raw bytes, black-and-white masks, resizing through the
    `image` crate.
  - `parser.rs`: the rhombus search and its specification.
  - `recognition.rs`: what the search is for, proved of its specification:
    a rhombus drawn in a quality's colour reads as that quality, a row
    without colour reads as none.
  - `historybar.rs`, `processor.rs`, `grabber.rs`, `classifier.rs`: the state
    and decisions of the display strip, the processing worker, the window
    watcher and the capture handler.
- `app/` runs it: logging, threads and channels, window capture, drawing.
- `tests/` exercises the library on synthetic screens.
