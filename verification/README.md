# cellarium

Cellular automata written as plain Rust methods and run on the GPU. A state
struct derives `CellState`; an `impl Cell` block carries `#[cell]` and the
methods `update`, `view` and (optionally) `init`, which are compiled to WGSL.

## Layout

- `src/` — the verified library (Verus). It works on its own model of the
  cell-code syntax (`ast`) and holds:
  - `layout`: field sizes and the greedy packing of state fields into RGBA
    textures (the `CellState` derive);
  - `check`: the rules of cell code (C006–C019);
  - `state_use`: how method bodies use the state struct (C003, C004, C005,
    C013, C014, C017);
  - `discover`: which state fields a method body uses;
  - `emit`, `translate`, `stmt`, `shader`, `stage`: the WGSL emitter, each
    function proved to produce the text its `em_*` specification gives;
  - `parse`, `cell`: the `#[cell]` attribute from its text to the three
    shaders; fields are read and written where the `CellState` layout puts
    them (the derive hands the attribute its fields and sizes);
  - `limits`: executable checks of what emission needs;
  - `params`, `persist`: tunable parameters, their history and replay, and
    the parameter file;
  - `runtime`: the simulation's configuration, the ping-pong state textures
    and the keyboard controls.
- `app/` — the host side: syn/quote front ends of the derive and the
  attribute, the `f32` vector types, wgpu pipelines, the winit window loop and
  the terminal parameter panel.
- `tests/` — tests of the library, including exact WGSL output.
