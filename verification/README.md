# mxross_canvas

The decision logic of MxRoss Canvas, a touch-driven painting engine,
written in Verus and proved against its contracts.

- `src/` is the verified library: the layer stack, the pointer-gesture
  state machine (touch-start disambiguation between painting and
  pinching), the Home / Setup / Painting screen flow (with
  motion-event dispatch), the sliding window of the stroke smoother, camera modes and
  snap axes, the paint/erase tool, flattening and PNG export, index and
  read-back layouts for the GPU, and the status messages of an export.
  The laws that hold across calls are public proof functions next to the
  code they are about (`lemma_*`).
- `app/` is ordinary Rust around it: everything that computes in floating
  point (brush spacing, Catmull-Rom evaluation, the orbit camera, the
  touch-to-canvas mapping), the egui interface, logging and the renderer
  trait.
- `tests/` runs the library on concrete values.

The only outside crate the library calls is `png`, through one trusted
wrapper in `src/export.rs`; the clock is read through two trusted
wrappers in `src/timer.rs`.

Not part of this crate: the GPU and Android shell of the application
(the wgpu paint canvas and test cube, the frame loop that renders and
presents, and the Android entry point with its Android-only logger).
Its shader sources are not available here; the decisions it makes are
the library's (`screen`, `gesture`, `pixels`), and `app/` holds the
parts that do not need the GPU.
