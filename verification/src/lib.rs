//! Render-side logic of the unified UI pipeline: quad type indices, the
//! layer tree that orders extracted quads by depth, the batching decisions
//! that group quads into draw calls, and the pipeline and draw parameters.

pub mod quad_type;
pub mod layer_maps;
pub mod layers;
pub mod visit_order;
pub mod quads;
pub mod batching;
pub mod draw;
pub mod pipeline;
pub mod quad_mesh;
pub mod vec_tracker;
pub mod bind_groups;
