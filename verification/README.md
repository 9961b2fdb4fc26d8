# mandelbrot_viewer

A GPU-driven Mandelbrot set explorer (wgpu rendering, egui navigation panel,
perturbation rendering around a reference orbit), split in two:

- `src/` — the library, verified with Verus. It holds the explorer's
  decisions that neither compute in floating point nor talk to the window,
  the GPU or the panel toolkit:
  - `fractal::palette` — the colour palettes, their shader indices, names and
    the `next` cycle, with laws (cycle of length four, indices and names
    distinct, `ALL` in index order);
  - `fractal::reference` — reference-orbit bookkeeping: how many points an
    orbit for a budget may hold (capped at `MAX_REF`), the builder that
    records points until escape or capacity, and whether a stored orbit covers
    a budget, with laws on coverage;
  - `scene` — the scene state (palette, stored reference, generation counter),
    the redraw decision for every action, and when the reference is rebuilt;
  - `input` — the keyboard bindings (the Controls table), the pointer drag
    state, and what each decoded input event asks for;
  - `routing` — where a window event goes once the panel has seen it, and
    when the next frame is drawn;
  - `ui` — the jump-to panel state and which refusal it reports;
  - `render::mandelbrot` — which reference generation the GPU holds;
  - `action` — the actions, generic over the scalar and point types.
- `app/` — the program: the winit event loop and event decoding, the wgpu and
  egui rendering, the camera (`View`), complex arithmetic, the orbit iteration
  and the distance test, all of which are floating point or I/O. It instantiates the library's generic types
  with `f64`, `Complex` and `[f32; 2]`.

Tests of the library are under `tests/`.
