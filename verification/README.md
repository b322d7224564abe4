# engine

The verified core of a node-based image compositing engine. Operations
(sources, colour transforms, compositing, generators, outputs) are nodes of
a graph; each declares its menu entry, inputs, outputs and parameters, and
runs on the values wired into it.

## Layout

- `src/` — the verified library.
  - `compositor/` — boxes (`Rect` and its algebra), inputs, values,
    errors, descriptors, the evaluation context and the operation registry.
  - `graphics.rs`, `graphics/mask.rs` — 8-bit pixel buffers, the
    missing-input placeholder, contain-fitting, work-area computation, and
    blending a processed buffer back through a MASK.
  - `operations/` — the operations: their descriptors, metadata and
    parameters, the 8-bit execution of SHUFFLE and INVERT, image and camera
    sources, RENDER, the ring palette and frame history of the generators,
    and the inventory that lists and registers every operation.
  - `renderer/`, `ui/`, `text.rs` — what is handed to the renderer and the
    UI, and the small string helpers the rest relies on.
- `tests/` — tests of the library through its public interface.
- `app/` — host-side code Verus does not see: floating-point pixel
  arithmetic, timing, the JavaScript boundary and serialisable copies of the
  UI views.
