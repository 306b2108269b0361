# sdf_modeler

A signed-distance-field modeler: scenes written as rhai scripts are turned
into WGSL shaders and ray-marched in an egui viewport.

## Layout

- `src/` — the verified library (Verus):
  - `float_bits.rs`: scene numbers are `f32` values held as their bit
    patterns; IEEE-754 `>` and negation on bits, proved against the real
    value that the bits encode.
  - `sdf_ast.rs`: the scene tree (`SdfNode`, `SdfOp`), its builders, the
    supersampling levels and settings.
  - `code.rs`: generated code as chunks of text and numbers.
  - `text.rs`: decimal printing of integers and marker replacement with the
    semantics of `str::replace`.
  - `wgsl_gen.rs`: the generator, `emit` (scene expression) and `shader`
    (whole generated code) as spec functions, and `build_shader`, which puts
    the code into the shader template.
  - `tab.rs`: the tab's decisions (recompilation, effect of a compilation,
    title).
  - `laws.rs`, `balance.rs`: properties across functions (axis selection of
    the builders, hard versus smooth blends, template splitting, balanced
    parentheses of every generated expression, the float order).
- `tests/` — tests of the library, including a comparison of the generated
  text with the text computed directly from the floats.
- `app/` — the plugin around the library: rhai bindings, printing of the
  numbers of generated code, file access, wgpu resources, camera and egui UI.
