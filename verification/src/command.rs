//! The steps of one frame, as values.

use vstd::prelude::*;
use crate::light::{spec_light_pose, LightPose};
use crate::shader::Attribute;
use crate::texture::TextureSlot;

verus! {

/// One step of a frame. The adapter that owns the graphics handles carries
/// each step out, in the order in which a plan lists them.
#[derive(Clone, Copy, Debug, PartialEq, Eq, Structural)]
pub enum Command {
    /// Make the shading program the active one.
    UseProgram,
    /// Switch a vertex attribute on.
    Enable(Attribute),
    /// Have the camera write its view and projection matrices, then write
    /// the camera's position in the world.
    UploadCamera,
    /// Write the object's world transform and its per-axis scale.
    UploadTransform,
    /// Attach the mesh's vertex buffers to the three attributes, and its
    /// index buffer.
    BindMesh,
    /// Bind a layer's texture to the layer's unit, set the layer's
    /// horizontal wrap mode where it repeats, and point the layer's sampler
    /// at the unit.
    BindTexture(TextureSlot),
    /// Write the animation clock.
    UploadTime(u64),
    /// Write the direction of the light, given as the pose to compute it
    /// from.
    UploadLightDirection(LightPose),
    /// Draw the mesh as an indexed list of triangles with 16-bit indices;
    /// the count is that of the indices.
    Draw(usize),
    /// Detach the mesh's buffers.
    UnbindMesh,
    /// Switch a vertex attribute off.
    Disable(Attribute),
}

/// The steps of the frame that shows the planet at `time`, drawing
/// `index_count` indices.
pub open spec fn frame_plan(time: u64, index_count: usize) -> Seq<Command> {
    seq![
        Command::UseProgram,
        Command::Enable(Attribute::Position),
        Command::Enable(Attribute::Normal),
        Command::Enable(Attribute::TexCoord),
        Command::UploadCamera,
        Command::UploadTransform,
        Command::BindMesh,
        Command::BindTexture(TextureSlot::Albedo),
        Command::BindTexture(TextureSlot::Bump),
        Command::BindTexture(TextureSlot::Specular),
        Command::BindTexture(TextureSlot::Cloud),
        Command::BindTexture(TextureSlot::Night),
        Command::UploadTime(time),
        Command::UploadLightDirection(spec_light_pose(time as nat)),
        Command::Draw(index_count),
        Command::UnbindMesh,
        Command::Disable(Attribute::Position),
        Command::Disable(Attribute::Normal),
        Command::Disable(Attribute::TexCoord),
    ]
}

} // verus!
