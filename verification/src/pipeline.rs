//! A model of the graphics state that the steps of a frame act on, and the
//! proof that a frame finds what it needs and leaves nothing behind.
//!
//! The state is shared by everything that draws: what one frame leaves
//! enabled or bound, the next one inherits. So the laws here are stated for
//! every state a frame may start in.

use vstd::prelude::*;
use crate::command::{frame_plan, Command};
use crate::light::{spec_light_pose, LightPose};
use crate::shader::{Attribute, Uniform};
use crate::texture::TextureSlot;

verus! {

/// The part of the graphics state that a frame reads or writes.
pub struct Pipeline {
    /// Whether the shading program is the active one.
    pub program_active: bool,
    /// The vertex attributes that are switched on.
    pub enabled: Set<Attribute>,
    /// Whether the mesh's buffers are attached.
    pub mesh_bound: bool,
    /// The layer whose texture each texture unit holds.
    pub textures: Map<nat, TextureSlot>,
    /// The layers whose textures wrap around horizontally.
    pub repeating: Set<TextureSlot>,
    /// The texture unit each sampler uniform points at.
    pub samplers: Map<Uniform, nat>,
    /// The uniforms that have been written.
    pub written: Set<Uniform>,
    /// The clock as last written.
    pub time: u64,
    /// The pose from which the light direction was last written.
    pub light: LightPose,
    /// The index counts of the draws issued so far.
    pub draws: Seq<usize>,
}

impl Pipeline {
    /// Whether a layer can be sampled: its texture sits in its unit, its
    /// sampler points there, and it wraps around if it is meant to.
    pub open spec fn layer_ready(self, slot: TextureSlot) -> bool {
        &&& self.textures.contains_key(slot.spec_unit())
        &&& self.textures[slot.spec_unit()] == slot
        &&& self.samplers.contains_key(slot.spec_sampler())
        &&& self.samplers[slot.spec_sampler()] == slot.spec_unit()
        &&& slot.spec_repeats_horizontally() ==> self.repeating.contains(slot)
    }

    /// Whether a draw would show the planet: the program is active, every
    /// attribute is on and fed by the mesh, every uniform has been written,
    /// every layer can be sampled, and the light is the one that belongs to
    /// the clock.
    pub open spec fn ready_to_draw(self) -> bool {
        &&& self.program_active
        &&& self.mesh_bound
        &&& forall|a: Attribute| self.enabled.contains(a)
        &&& forall|u: Uniform| !u.spec_is_sampler() ==> self.written.contains(u)
        &&& forall|s: TextureSlot| self.layer_ready(s)
        &&& self.light == spec_light_pose(self.time as nat)
    }

    /// Whether nothing of a frame is left switched on or attached.
    pub open spec fn released(self) -> bool {
        &&& !self.mesh_bound
        &&& forall|a: Attribute| !self.enabled.contains(a)
    }

    /// Whether a step may be taken in this state.
    pub open spec fn accepts(self, command: Command) -> bool {
        match command {
            Command::UseProgram => true,
            Command::Enable(_) => true,
            Command::UploadCamera => self.program_active,
            Command::UploadTransform => self.program_active,
            Command::BindMesh => true,
            Command::BindTexture(_) => self.program_active,
            Command::UploadTime(_) => self.program_active,
            Command::UploadLightDirection(_) => self.program_active,
            Command::Draw(_) => self.ready_to_draw(),
            Command::UnbindMesh => self.mesh_bound,
            Command::Disable(a) => self.enabled.contains(a),
        }
    }

    /// The state after a step.
    pub open spec fn step(self, command: Command) -> Pipeline {
        match command {
            Command::UseProgram => Pipeline { program_active: true, ..self },
            Command::Enable(a) => Pipeline { enabled: self.enabled.insert(a), ..self },
            Command::UploadCamera => Pipeline {
                written: self.written.insert(Uniform::Proj).insert(Uniform::View).insert(
                    Uniform::CameraPosition,
                ),
                ..self
            },
            Command::UploadTransform => Pipeline {
                written: self.written.insert(Uniform::Transform).insert(Uniform::Scale),
                ..self
            },
            Command::BindMesh => Pipeline { mesh_bound: true, ..self },
            Command::BindTexture(slot) => Pipeline {
                textures: self.textures.insert(slot.spec_unit(), slot),
                repeating: if slot.spec_repeats_horizontally() {
                    self.repeating.insert(slot)
                } else {
                    self.repeating
                },
                samplers: self.samplers.insert(slot.spec_sampler(), slot.spec_unit()),
                ..self
            },
            Command::UploadTime(time) => Pipeline {
                written: self.written.insert(Uniform::Time),
                time,
                ..self
            },
            Command::UploadLightDirection(light) => Pipeline {
                written: self.written.insert(Uniform::LightDir),
                light,
                ..self
            },
            Command::Draw(count) => Pipeline { draws: self.draws.push(count), ..self },
            Command::UnbindMesh => Pipeline { mesh_bound: false, ..self },
            Command::Disable(a) => Pipeline { enabled: self.enabled.remove(a), ..self },
        }
    }

    /// The state after a sequence of steps.
    pub open spec fn run(self, commands: Seq<Command>) -> Pipeline
        decreases commands.len(),
    {
        if commands.len() == 0 {
            self
        } else {
            self.run(commands.drop_last()).step(commands.last())
        }
    }

    /// Whether each step of a sequence may be taken in the state that the
    /// steps before it lead to.
    pub open spec fn accepts_all(self, commands: Seq<Command>) -> bool
        decreases commands.len(),
    {
        commands.len() == 0 || (self.accepts_all(commands.drop_last()) && self.run(
            commands.drop_last(),
        ).accepts(commands.last()))
    }
}

/// Taking one more step after a sequence: the sequence's outcome is stepped
/// once, and the longer sequence is accepted if the shorter one is and its
/// outcome accepts the step.
pub proof fn lemma_run_push(start: Pipeline, commands: Seq<Command>, command: Command)
    ensures
        start.run(commands.push(command)) == start.run(commands).step(command),
        start.accepts_all(commands.push(command)) <==> start.accepts_all(commands) && start.run(
            commands,
        ).accepts(command),
{
    assert(commands.push(command).drop_last() =~= commands);
}

/// Running two sequences one after the other is running their
/// concatenation.
pub proof fn lemma_run_concat(start: Pipeline, first: Seq<Command>, second: Seq<Command>)
    ensures
        start.run(first + second) == start.run(first).run(second),
        start.accepts_all(first + second) <==> start.accepts_all(first) && start.run(
            first,
        ).accepts_all(second),
    decreases second.len(),
{
    if second.len() == 0 {
        assert(first + second =~= first);
    } else {
        lemma_run_concat(start, first, second.drop_last());
        assert((first + second).drop_last() =~= first + second.drop_last());
        assert((first + second).last() == second.last());
    }
}

/// Whatever state a frame starts in, each of its steps may be taken when its
/// turn comes. In particular the draw finds the program active, the
/// attributes on and fed, every uniform written and every layer in place.
/// Afterwards the frame has issued that one draw and no other, the clock and
/// the light are those of the frame, and every layer sits in its own unit.
pub proof fn lemma_frame_is_well_formed(start: Pipeline, time: u64, index_count: usize)
    ensures
        start.accepts_all(frame_plan(time, index_count)),
        start.run(frame_plan(time, index_count)).program_active,
        start.run(frame_plan(time, index_count)).draws == start.draws.push(index_count),
        start.run(frame_plan(time, index_count)).time == time,
        start.run(frame_plan(time, index_count)).light == spec_light_pose(time as nat),
        forall|s: TextureSlot| #[trigger] start.run(frame_plan(time, index_count)).layer_ready(s),
        forall|u: Uniform|
            !u.spec_is_sampler() ==> #[trigger] start.run(
                frame_plan(time, index_count),
            ).written.contains(u),
{
    let done0 = Seq::<Command>::empty();
    let step0 = Command::UseProgram;
    let step1 = Command::Enable(Attribute::Position);
    let step2 = Command::Enable(Attribute::Normal);
    let step3 = Command::Enable(Attribute::TexCoord);
    let step4 = Command::UploadCamera;
    let step5 = Command::UploadTransform;
    let step6 = Command::BindMesh;
    let step7 = Command::BindTexture(TextureSlot::Albedo);
    let step8 = Command::BindTexture(TextureSlot::Bump);
    let step9 = Command::BindTexture(TextureSlot::Specular);
    let step10 = Command::BindTexture(TextureSlot::Cloud);
    let step11 = Command::BindTexture(TextureSlot::Night);
    let step12 = Command::UploadTime(time);
    let step13 = Command::UploadLightDirection(spec_light_pose(time as nat));
    let step14 = Command::Draw(index_count);
    let step15 = Command::UnbindMesh;
    let step16 = Command::Disable(Attribute::Position);
    let step17 = Command::Disable(Attribute::Normal);
    let step18 = Command::Disable(Attribute::TexCoord);
    let done1 = done0.push(step0);
    let done2 = done1.push(step1);
    let done3 = done2.push(step2);
    let done4 = done3.push(step3);
    let done5 = done4.push(step4);
    let done6 = done5.push(step5);
    let done7 = done6.push(step6);
    let done8 = done7.push(step7);
    let done9 = done8.push(step8);
    let done10 = done9.push(step9);
    let done11 = done10.push(step10);
    let done12 = done11.push(step11);
    let done13 = done12.push(step12);
    let done14 = done13.push(step13);
    let done15 = done14.push(step14);
    let done16 = done15.push(step15);
    let done17 = done16.push(step16);
    let done18 = done17.push(step17);
    let done19 = done18.push(step18);
    lemma_run_push(start, done0, step0);
    lemma_run_push(start, done1, step1);
    lemma_run_push(start, done2, step2);
    lemma_run_push(start, done3, step3);
    lemma_run_push(start, done4, step4);
    lemma_run_push(start, done5, step5);
    lemma_run_push(start, done6, step6);
    lemma_run_push(start, done7, step7);
    lemma_run_push(start, done8, step8);
    lemma_run_push(start, done9, step9);
    lemma_run_push(start, done10, step10);
    lemma_run_push(start, done11, step11);
    lemma_run_push(start, done12, step12);
    lemma_run_push(start, done13, step13);
    let before_draw = start.run(done14);
    assert forall|a: Attribute| before_draw.enabled.contains(a) by {
        match a {
            Attribute::Position => {},
            Attribute::Normal => {},
            Attribute::TexCoord => {},
        }
    }
    assert forall|s: TextureSlot| before_draw.layer_ready(s) by {
        match s {
            TextureSlot::Albedo => {},
            TextureSlot::Bump => {},
            TextureSlot::Specular => {},
            TextureSlot::Cloud => {},
            TextureSlot::Night => {},
        }
    }
    assert(before_draw.ready_to_draw());
    lemma_run_push(start, done14, step14);
    lemma_run_push(start, done15, step15);
    lemma_run_push(start, done16, step16);
    lemma_run_push(start, done17, step17);
    lemma_run_push(start, done18, step18);
    assert(done19 =~= frame_plan(time, index_count));
    let end = start.run(done19);
    assert forall|s: TextureSlot| #[trigger] end.layer_ready(s) by {
        assert(before_draw.layer_ready(s));
    }
}

/// A frame leaves nothing behind: whatever state it starts in, it ends with
/// every vertex attribute off and the mesh detached.
pub proof fn lemma_frame_releases(start: Pipeline, time: u64, index_count: usize)
    ensures
        start.run(frame_plan(time, index_count)).released(),
{
    let plan = frame_plan(time, index_count);
    let tail = seq![
        Command::UnbindMesh,
        Command::Disable(Attribute::Position),
        Command::Disable(Attribute::Normal),
        Command::Disable(Attribute::TexCoord),
    ];
    let head = plan.subrange(0, 15);
    assert(plan =~= head + tail);
    lemma_run_concat(start, head, tail);
    let mid = start.run(head);
    let t0 = Seq::<Command>::empty();
    let t1 = t0.push(tail[0]);
    let t2 = t1.push(tail[1]);
    let t3 = t2.push(tail[2]);
    let t4 = t3.push(tail[3]);
    lemma_run_push(mid, t0, tail[0]);
    lemma_run_push(mid, t1, tail[1]);
    lemma_run_push(mid, t2, tail[2]);
    lemma_run_push(mid, t3, tail[3]);
    assert(t4 =~= tail);
    let end = mid.run(tail);
    assert forall|a: Attribute| !end.enabled.contains(a) by {
        match a {
            Attribute::Position => {},
            Attribute::Normal => {},
            Attribute::TexCoord => {},
        }
    }
}

/// The layers keep their units: after any frame, at any time and from any
/// state, unit 0 holds the albedo, 1 the relief, 2 the reflectivity mask,
/// 3 the clouds and 4 the night lights.
pub proof fn lemma_texture_units_are_fixed(start: Pipeline, time: u64, index_count: usize)
    ensures
        start.run(frame_plan(time, index_count)).textures[0] == TextureSlot::Albedo,
        start.run(frame_plan(time, index_count)).textures[1] == TextureSlot::Bump,
        start.run(frame_plan(time, index_count)).textures[2] == TextureSlot::Specular,
        start.run(frame_plan(time, index_count)).textures[3] == TextureSlot::Cloud,
        start.run(frame_plan(time, index_count)).textures[4] == TextureSlot::Night,
        forall|i: int|
            7 <= i < 12 ==> #[trigger] frame_plan(time, index_count)[i] == Command::BindTexture(
                crate::texture::all_slots()[i - 7],
            ),
{
    lemma_frame_is_well_formed(start, time, index_count);
    let end = start.run(frame_plan(time, index_count));
    assert(end.layer_ready(TextureSlot::Albedo));
    assert(end.layer_ready(TextureSlot::Bump));
    assert(end.layer_ready(TextureSlot::Specular));
    assert(end.layer_ready(TextureSlot::Cloud));
    assert(end.layer_ready(TextureSlot::Night));
}

} // verus!
