//! A 2D sprite-rendering core: texture-atlas packing, per-layer instance
//! buffers with amortized growth, and the records that tie entities to the
//! atlas cells their textures occupy.

pub mod allocator;
pub mod atlas;
pub mod config;
pub mod entity;
pub mod error;
pub mod extent;
pub mod gpu;
pub mod id;
pub mod image_data;
pub mod layer;
pub mod text;
pub mod texture;
pub mod vertex_group;
