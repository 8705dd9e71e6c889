use colony::{focus_camera, setup_camera, CameraData, CameraPose, Point3};

fn camera(should: Point3, is: Point3) -> CameraData {
    CameraData { camera_should_focus: should, camera_is_focus: is }
}

#[test]
fn one_frame_moves_a_tenth_of_the_way() {
    let mut c = camera(Point3::new(10_000, 0, 0), Point3::origin());
    let pose = focus_camera(&mut c, None, 50_000_000);
    assert_eq!(c.camera_is_focus, Point3::new(1000, 0, 0));
    assert_eq!(c.camera_should_focus, Point3::new(10_000, 0, 0));
    assert_eq!(
        pose,
        CameraPose { eye: Point3::new(1000 - 20_000, 20_000, 0), target: Point3::new(10_000, 0, 0) }
    );
}

#[test]
fn player_position_becomes_the_target() {
    let mut c = CameraData::new();
    let pose = focus_camera(&mut c, Some(Point3::new(0, 500, 3000)), 100_000_000);
    assert_eq!(c.camera_should_focus, Point3::new(0, 500, 3000));
    // 0.2 of (0, 500, 3000), rounded toward zero
    assert_eq!(c.camera_is_focus, Point3::new(0, 100, 600));
    assert_eq!(pose.target, Point3::new(0, 500, 3000));
    assert_eq!(pose.eye, Point3::new(-20_000, 20_000, 600));
}

#[test]
fn settled_focus_stays_put() {
    let start = Point3::new(100, 100, 100);
    let mut c = camera(Point3::new(200, 200, 200), start);
    for _ in 0..50 {
        focus_camera(&mut c, None, 16_000_000);
    }
    assert_eq!(c.camera_is_focus, start);
    // exactly at the threshold: still settled
    let mut c = camera(Point3::new(200, 0, 0), Point3::origin());
    focus_camera(&mut c, None, 500_000_000);
    assert_eq!(c.camera_is_focus, Point3::origin());
    // just past it: moves
    let mut c = camera(Point3::new(201, 0, 0), Point3::origin());
    focus_camera(&mut c, None, 500_000_000);
    assert_eq!(c.camera_is_focus, Point3::new(201, 0, 0));
}

#[test]
fn focus_closes_in_without_overshoot() {
    let target = Point3::new(-8000, 3000, 12_000);
    let mut c = camera(target, Point3::new(5000, -2000, 0));
    let dist = |p: Point3| {
        let (dx, dy, dz) = ((target.x - p.x) as i128, (target.y - p.y) as i128, (target.z - p.z) as i128);
        dx * dx + dy * dy + dz * dz
    };
    let mut last = dist(c.camera_is_focus);
    for _ in 0..200 {
        focus_camera(&mut c, Some(target), 16_666_667);
        let p = c.camera_is_focus;
        assert!(p.x >= -8000 && p.x <= 5000);
        assert!(p.y >= -2000 && p.y <= 3000);
        assert!(p.z >= 0 && p.z <= 12_000);
        let d = dist(p);
        assert!(d <= last);
        last = d;
    }
    assert!(last <= 200 * 200);
}

#[test]
fn negative_differences_round_toward_zero() {
    let mut c = camera(Point3::new(-1001, 0, 0), Point3::origin());
    focus_camera(&mut c, None, 250_000_000);
    // -1001 * 0.5 = -500.5, rounded toward zero
    assert_eq!(c.camera_is_focus, Point3::new(-500, 0, 0));
}

#[test]
fn camera_starts_high_above_the_origin() {
    let pose = setup_camera();
    assert_eq!(pose.eye, Point3::new(-2000, 200_000, 250));
    assert_eq!(pose.target, Point3::origin());
    let c = CameraData::new();
    assert_eq!(c.camera_is_focus, Point3::origin());
    assert!(c.is_in_range());
}

#[test]
fn settled_frame_rewrites_the_same_transform() {
    let target = Point3::new(1000, 500, -2000);
    let start = Point3::new(1100, 400, -1900);
    let mut c = camera(target, start);
    let first = focus_camera(&mut c, None, 16_000_000);
    let second = focus_camera(&mut c, Some(target), 400_000_000);
    assert_eq!(c, camera(target, start));
    assert_eq!(first, second);
    assert_eq!(first.eye, Point3::new(1100 - 20_000, 20_000, -1900));
}
