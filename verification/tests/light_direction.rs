use earth_material::light::{light_pose, Angle, LightPose, FRAMES_PER_TURN};
use nalgebra::{Point3, UnitQuaternion, Vector3};

fn radians(angle: Angle) -> f32 {
    (angle.arcseconds as f64 / 3600.0).to_radians() as f32
}

fn direction(pose: &LightPose) -> Vector3<f32> {
    let rest = Point3::new(pose.rest.x as f32, pose.rest.y as f32, pose.rest.z as f32);
    let yaw = UnitQuaternion::from_axis_angle(&Vector3::y_axis(), radians(pose.yaw));
    let tilt = UnitQuaternion::from_axis_angle(&Vector3::x_axis(), radians(pose.tilt));
    tilt.transform_point(&yaw.transform_point(&rest)).coords
}

#[test]
fn at_time_zero_the_light_is_turned_by_the_tilt_alone() {
    let pose = light_pose(0);
    let tilt = UnitQuaternion::from_axis_angle(&Vector3::x_axis(), (-23.4f32).to_radians());
    let expected = tilt.transform_point(&Point3::new(0.0, 0.0, -1.0)).coords;
    assert!((direction(&pose) - expected).norm() < 1e-6);
}

#[test]
fn the_light_returns_after_a_full_turn() {
    for time in [0u64, 1, 360, 5120, 64_800] {
        let now = direction(&light_pose(time));
        let later = direction(&light_pose(time + FRAMES_PER_TURN));
        assert!((now - later).norm() < 1e-5);
    }
}

#[test]
fn the_light_is_opposite_after_half_a_turn() {
    let now = direction(&light_pose(0));
    let later = direction(&light_pose(FRAMES_PER_TURN / 2));
    assert!((now + later).norm() < 1e-5);
}

#[test]
fn the_light_has_moved_by_one_degree_after_360_frames() {
    let now = direction(&light_pose(0));
    let later = direction(&light_pose(360));
    let angle = now.angle(&later);
    assert!((angle - (1.0f32).to_radians()).abs() < 1e-4);
}

#[test]
fn the_light_direction_has_unit_length() {
    for time in [0u64, 17, 360, 100_000, 1 << 33] {
        assert!((direction(&light_pose(time)).norm() - 1.0).abs() < 1e-5);
    }
}
