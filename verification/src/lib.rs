//! Verified core of the cinder renderer: resource bookkeeping, frame pacing,
//! render-graph scheduling and the Vulkan state decisions the renderer makes.
use vstd::prelude::*;

pub mod barrier;
pub mod bind_group;
pub mod buffer;
pub mod command;
pub mod context;
pub mod debug_label;
pub mod device;
pub mod events;
pub mod frame;
pub mod frame_graph;
pub mod graph_repr;
pub mod geometry;
pub mod handle;
pub mod image;
pub mod input;
pub mod keyboard;
pub mod manager;
pub mod memory;
pub mod mesh_draws;
pub mod named_graph;
pub mod pipeline;
pub mod pool;
pub mod render_graph;
pub mod sampler;
pub mod set_lists;
pub mod shader;
pub mod swapchain;
pub mod ui_draw;
pub mod viewport;

verus! {

} // verus!
