# pathfinder_hal

The verified core of a tile-based GPU vector renderer on gfx-hal.

`src/` is checked by Verus. It holds what the renderer decides and
describes without touching a device:

- `renderer`: fill batching (no fill lost, reordered or duplicated; fewer
  than a batch ever waits; the mask is cleared once per scene), statistics,
  viewports, which pipeline and fill color tiles use, postprocessing.
- `pipeline_descriptions`, `pipeline_dsl_bindings`, `pso`, `vertex_arrays`:
  the pipelines' vertex input, tests, blending, bindings and vertex arrays.
- `attachment`, `render_pass`, `simple_render_pass`, `render_pass_descs`,
  `render_pass_descriptions`: render passes, and how the swapchain's format
  completes them.
- `swapchain`, `format`, `memory`, `submission`, `gpu_state`: swapchain
  configuration, format channel types (read from gfx-hal), memory-type
  choice, buffer pools, the GPU state's initial layout and the command
  buffers recorded each frame.
- `texture`: the size of a PNG texture (decoded by the image crate) and how
  its bytes are staged.
- `svg`, `svg_path`: the SVG import rules (which objects, which paints, which
  unsupported features are reported, over a whole document tree) and
  path-to-segment conversion.
- `color`, `stroke`, `shaders`, `demo`, `primitives`, `gpu_types`: the
  smaller pieces.

`app/` holds what needs a device, a window or files: conversions to
gfx-hal's types; render passes, pipelines, images, framebuffers and buffer
pools; the swapchain and GPU states assembled from the library's plans,
with their frame cycle (free frame, fill and tile submissions, present);
resource loading and shader-template rendering; reading usvg trees; and the
floating-point stroke offsetting, which follows the library's stroke
decisions.

`tests/` runs the library on concrete values.
