//! A double-buffered drawing canvas: a fixed set of off-screen surfaces, a
//! cursor naming the active one, and a per-frame state machine that flips the
//! pair in response to pointer input.
//!
//! The library decides; the host performs. GPU allocation and command
//! recording happen in the host, which hands the library the resources it
//! allocated and carries out the draw plan the library returns.

mod slice_specs;
pub mod surface;

pub use surface::{
    canvas_desc, extent_fits, plan_surfaces, swap_seq, lemma_swap_twice, CanvasError, Surface,
    SurfaceDesc, SurfaceFormat, SurfaceSet,
};
pub mod canvas;

pub use canvas::{
    lemma_other_events_keep_order, lemma_two_presses_restore, next_order, source_index,
    CanvasEvent, DrawPlan, DrawingCanvas, FULLSCREEN_VERTICES,
};
pub mod pipeline;
pub mod shaders;

pub use pipeline::{canvas_layout, check_pipeline_layout, surface_binding_layout, BindingSlot};
pub use shaders::{init_draw_shaders, pipeline_tags, DrawShaders, ShaderLoad, ShaderStage};
