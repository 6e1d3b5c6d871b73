//! The render contract of a shaded, textured planet: what one frame binds,
//! uploads and draws, in which order, and how the animation clock advances.
//!
//! The crate holds no graphics handle. It decides; an adapter that owns the
//! program, the mesh and the textures carries the decisions out.

pub mod shader;
pub mod texture;
pub mod light;
pub mod command;
pub mod material;
pub mod pipeline;
