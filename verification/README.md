# iron_canvas_core

The geometry and frame-scheduling core of a canvas spreadsheet renderer,
verified with Verus.

A painted frame (`chrome::Chrome`) records which rows and columns are
visible, where each sits on the canvas, and how wide the headers are.
Between frames the library decides how little work the next paint can do:
it classifies an attempt against the committed frame (`Chrome::classify`),
plans a strategy (`frame::plan_frame`), builds the next frame fresh,
reuses its slots, or shifts it in place for a one-axis scroll blit
(`chrome::reuse::try_blit_reuse`, which can be rolled back exactly), and
settles the attempt in `orchestrator::finish::AttemptLedger`, which
requeues the work of a held attempt and installs committed frames.

## Layout

- `src/`: the verified library. Every public function states its result
  in `ensures`; the laws that relate several functions are public proof
  functions (for instance `frame::laws` for merging queued work).
- `tests/`: ordinary Rust tests of the compiled library.
- `app/`: host glue that Verus does not see: the host model with its
  floating-point extents, the drawing surface, serde copies of the wire
  types, and the paint loop (`app/driver.rs`) that performs the reads and
  the painting around the library's decisions.

Text measurement for auto-fit, the renderer's cell painter and the
browser canvas backend are not part of this crate.
