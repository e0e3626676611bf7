//! Verified core of a tile-based GPU vector renderer built on gfx-hal.
//!
//! The library holds the renderer's data model (colors, batch primitives,
//! pipeline and render-pass descriptions, descriptor bindings), the decisions
//! the renderer takes between GPU calls (fill batching, statistics, viewports,
//! memory-type and swapchain-format selection), and the SVG import rules.
//! Everything that talks to a device, a window or a file lives outside.

pub mod attachment;
pub mod color;
pub mod demo;
pub mod format;
pub mod gpu_state;
pub mod gpu_types;
pub mod memory;
pub mod pipeline_descriptions;
pub mod pipeline_dsl_bindings;
pub mod primitives;
pub mod pso;
pub mod render_pass;
pub mod render_pass_descriptions;
pub mod render_pass_descs;
pub mod renderer;
pub mod shaders;
pub mod simple_render_pass;
pub mod stroke;
pub mod svg;
pub mod svg_path;
pub mod submission;
pub mod swapchain;
pub mod texture;
pub mod vertex_arrays;
