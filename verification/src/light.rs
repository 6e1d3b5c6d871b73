//! Where the sun stands: the two rotations that carry the light from its
//! rest direction to its direction in a given frame.
//!
//! Angles are held exactly, as whole arcseconds, so that nothing is rounded
//! before the rotation itself is computed.

use vstd::prelude::*;

verus! {

/// Arcseconds in one degree.
pub const ARCSECONDS_PER_DEGREE: i128 = 3600;

/// Arcseconds in a full revolution.
pub const FULL_TURN: i128 = 1_296_000;

/// Frames in which the yaw advances by one degree.
pub const FRAMES_PER_DEGREE: u64 = 360;

/// Frames in which the yaw completes one revolution.
pub const FRAMES_PER_TURN: u64 = 129_600;

/// The axial tilt: 23 degrees and 24 minutes, clockwise.
pub const AXIAL_TILT: i128 = -84_240;

/// A signed angle in arcseconds; positive is counter-clockwise.
#[derive(Clone, Copy, Debug, PartialEq, Eq, Structural)]
pub struct Angle {
    pub arcseconds: i128,
}

impl Angle {
    /// The angle as a number of arcseconds.
    pub open spec fn view(self) -> int {
        self.arcseconds as int
    }
}

/// A direction with whole-number components.
#[derive(Clone, Copy, Debug, PartialEq, Eq, Structural)]
pub struct Direction {
    pub x: i32,
    pub y: i32,
    pub z: i32,
}

/// How the light is turned in one frame: `rest` is rotated by `yaw` about
/// the vertical axis, and the outcome by `tilt` about the horizontal axis.
#[derive(Clone, Copy, Debug, PartialEq, Eq, Structural)]
pub struct LightPose {
    pub rest: Direction,
    pub yaw: Angle,
    pub tilt: Angle,
}

/// The yaw after `time` frames, in arcseconds: `time / 360` degrees,
/// clockwise.
pub open spec fn spec_yaw(time: nat) -> int {
    (-(time as int) * ARCSECONDS_PER_DEGREE as int) / (FRAMES_PER_DEGREE as int)
}

/// The direction the light has before it is turned: along the depth axis,
/// towards the viewer's back.
pub open spec fn spec_rest() -> Direction {
    Direction { x: 0i32, y: 0i32, z: -1i32 }
}

/// The light's pose after `time` frames.
pub open spec fn spec_light_pose(time: nat) -> LightPose {
    LightPose {
        rest: spec_rest(),
        yaw: Angle { arcseconds: spec_yaw(time) as i128 },
        tilt: Angle { arcseconds: AXIAL_TILT },
    }
}

/// The light's pose after `time` frames.
pub fn light_pose(time: u64) -> (pose: LightPose)
    ensures
        pose == spec_light_pose(time as nat),
        pose.yaw@ == spec_yaw(time as nat),
        pose.yaw@ * FRAMES_PER_DEGREE == -(time as int) * ARCSECONDS_PER_DEGREE,
        pose.tilt@ == AXIAL_TILT,
        pose.rest == spec_rest(),
{
    let frames: i128 = time as i128;
    assert(-0x10_0000_0000_0000_0000 <= -10 * frames <= 0);
    LightPose {
        rest: Direction { x: 0, y: 0, z: -1 },
        yaw: Angle { arcseconds: -10 * frames },
        tilt: Angle { arcseconds: AXIAL_TILT },
    }
}

/// The yaw is exact: a frame turns the light by ten arcseconds, and no
/// remainder is dropped in the division.
pub proof fn lemma_yaw_is_exact(time: nat)
    ensures
        spec_yaw(time) == -10 * time,
        spec_yaw(time) * FRAMES_PER_DEGREE == -(time as int) * ARCSECONDS_PER_DEGREE,
        spec_yaw(time + 1) == spec_yaw(time) - 10,
{
}

/// Before the first frame the yaw is the zero angle.
pub proof fn lemma_yaw_starts_at_zero()
    ensures
        spec_yaw(0) == 0,
        spec_light_pose(0).yaw@ == 0,
{
}

/// Every `FRAMES_PER_TURN` frames the yaw has gone round by exactly one full
/// revolution, clockwise; in between it has not.
pub proof fn lemma_yaw_period(time: nat, frames: nat)
    ensures
        spec_yaw(time + FRAMES_PER_TURN as nat) == spec_yaw(time) - FULL_TURN,
        0 < frames < FRAMES_PER_TURN ==> -FULL_TURN < spec_yaw(time + frames) - spec_yaw(time) < 0,
{
}

/// The tilt and the rest direction are the same in every frame.
pub proof fn lemma_tilt_is_constant(a: nat, b: nat)
    ensures
        spec_light_pose(a).tilt == spec_light_pose(b).tilt,
        spec_light_pose(a).rest == spec_light_pose(b).rest,
        spec_light_pose(a).tilt@ * 10 == -234 * ARCSECONDS_PER_DEGREE,
{
}

} // verus!
