//! The material: the animation clock and the frames it gives rise to.

use vstd::prelude::*;
use crate::command::{frame_plan, Command};
use crate::light::light_pose;
use crate::shader::Attribute;
use crate::texture::TextureSlot;

verus! {

/// The state of the planet's material: a clock that counts the frames
/// rendered so far. Nothing sets it back.
#[derive(Debug)]
pub struct NormalMaterial {
    time: u64,
}

impl NormalMaterial {
    /// The number of frames rendered so far.
    pub closed spec fn spec_time(&self) -> u64 {
        self.time
    }

    /// A material that has rendered no frame yet.
    pub fn new() -> (material: NormalMaterial)
        ensures
            material.spec_time() == 0,
    {
        NormalMaterial { time: 0 }
    }

    /// The number of frames rendered so far.
    pub fn time(&self) -> (time: u64)
        ensures
            time == self.spec_time(),
    {
        self.time
    }

    /// Advances the clock by one frame and returns the steps of that frame,
    /// for a mesh of `index_count` indices.
    pub fn render(&mut self, index_count: usize) -> (plan: Vec<Command>)
        requires
            old(self).spec_time() < u64::MAX,
        ensures
            final(self).spec_time() == old(self).spec_time() + 1,
            plan@ == frame_plan(final(self).spec_time(), index_count),
    {
        self.time = self.time + 1;
        let time = self.time;
        let mut plan: Vec<Command> = Vec::new();
        plan.push(Command::UseProgram);
        plan.push(Command::Enable(Attribute::Position));
        plan.push(Command::Enable(Attribute::Normal));
        plan.push(Command::Enable(Attribute::TexCoord));
        plan.push(Command::UploadCamera);
        plan.push(Command::UploadTransform);
        plan.push(Command::BindMesh);
        plan.push(Command::BindTexture(TextureSlot::Albedo));
        plan.push(Command::BindTexture(TextureSlot::Bump));
        plan.push(Command::BindTexture(TextureSlot::Specular));
        plan.push(Command::BindTexture(TextureSlot::Cloud));
        plan.push(Command::BindTexture(TextureSlot::Night));
        plan.push(Command::UploadTime(time));
        plan.push(Command::UploadLightDirection(light_pose(time)));
        plan.push(Command::Draw(index_count));
        plan.push(Command::UnbindMesh);
        plan.push(Command::Disable(Attribute::Position));
        plan.push(Command::Disable(Attribute::Normal));
        plan.push(Command::Disable(Attribute::TexCoord));
        plan
    }

    /// Renders a frame unless the clock has run out: then the material is
    /// left as it is and no plan is returned.
    pub fn try_render(&mut self, index_count: usize) -> (plan: Option<Vec<Command>>)
        ensures
            plan is Some <==> old(self).spec_time() < u64::MAX,
            plan matches Some(steps) ==> {
                &&& final(self).spec_time() == old(self).spec_time() + 1
                &&& steps@ == frame_plan(final(self).spec_time(), index_count)
            },
            plan is None ==> final(self).spec_time() == old(self).spec_time(),
    {
        if self.time < u64::MAX {
            Some(self.render(index_count))
        } else {
            None
        }
    }
}

} // verus!
