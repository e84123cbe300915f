use la_kill_em::camera::camera_follow_player;
use la_kill_em::entity::{control_player, AxisDrive, Controllable, HeldKeys, Steering};

const ON: Controllable = Controllable { is_controllable: true };
const OFF: Controllable = Controllable { is_controllable: false };

fn keys(up: bool, down: bool, left: bool, right: bool) -> HeldKeys {
    HeldKeys { up, down, left, right }
}

// One axis of the velocity update, as the game applies a drive.
fn drive_axis(velocity: f32, acc: f32, dcc: f32, delta: f32, drive: AxisDrive) -> f32 {
    let mut v = velocity;
    if drive.backward {
        v -= acc * delta;
    }
    if drive.forward {
        v += acc * delta;
    }
    if drive.decay {
        v -= v * dcc * delta.clamp(0.0, 0.9);
    }
    v.clamp(-3.0, 3.0)
}

#[test]
fn no_keys_let_both_axes_decay() {
    let coast = AxisDrive { backward: false, forward: false, decay: true };
    assert_eq!(
        control_player(&ON, &keys(false, false, false, false)),
        Some(Steering { x: coast, y: coast })
    );
}

#[test]
fn one_key_drives_its_axis_without_decay() {
    let coast = AxisDrive { backward: false, forward: false, decay: true };
    let forward = AxisDrive { backward: false, forward: true, decay: false };
    let backward = AxisDrive { backward: true, forward: false, decay: false };
    assert_eq!(
        control_player(&ON, &keys(false, false, false, true)),
        Some(Steering { x: forward, y: coast })
    );
    assert_eq!(
        control_player(&ON, &keys(false, false, true, false)),
        Some(Steering { x: backward, y: coast })
    );
    assert_eq!(
        control_player(&ON, &keys(true, false, false, false)),
        Some(Steering { x: coast, y: forward })
    );
    assert_eq!(
        control_player(&ON, &keys(false, true, false, false)),
        Some(Steering { x: coast, y: backward })
    );
}

#[test]
fn opposing_keys_cancel_and_decay() {
    let stall = AxisDrive { backward: true, forward: true, decay: true };
    assert_eq!(
        control_player(&ON, &keys(true, true, true, true)),
        Some(Steering { x: stall, y: stall })
    );
}

#[test]
fn the_axes_are_read_independently() {
    let forward = AxisDrive { backward: false, forward: true, decay: false };
    let stall = AxisDrive { backward: true, forward: true, decay: true };
    assert_eq!(
        control_player(&ON, &keys(true, false, true, true)),
        Some(Steering { x: stall, y: forward })
    );
}

#[test]
fn an_entity_out_of_control_is_not_steered() {
    assert_eq!(control_player(&OFF, &keys(true, false, false, true)), None);
    assert_eq!(control_player(&OFF, &keys(false, false, false, false)), None);
    assert_eq!(control_player(&Controllable::default(), &keys(true, true, true, true)), None);
}

#[test]
fn axis_drive_from_keys_covers_all_four_cases() {
    assert_eq!(
        AxisDrive::from_keys(false, false),
        AxisDrive { backward: false, forward: false, decay: true }
    );
    assert_eq!(
        AxisDrive::from_keys(true, false),
        AxisDrive { backward: true, forward: false, decay: false }
    );
    assert_eq!(
        AxisDrive::from_keys(false, true),
        AxisDrive { backward: false, forward: true, decay: false }
    );
    assert_eq!(
        AxisDrive::from_keys(true, true),
        AxisDrive { backward: true, forward: true, decay: true }
    );
}

#[test]
fn holding_right_reaches_the_limit_and_letting_go_decays_without_reversing() {
    let (acc, dcc, delta) = (0.1f32, 0.1f32, 1.0f32);
    let mut vx = 0.0f32;
    let mut vy = 0.0f32;
    for _ in 0..50 {
        let steering = control_player(&ON, &keys(false, false, false, true)).unwrap();
        vx = drive_axis(vx, acc, dcc, delta, steering.x);
        vy = drive_axis(vy, acc, dcc, delta, steering.y);
        assert!((-3.0..=3.0).contains(&vx));
    }
    assert_eq!(vx, 3.0);
    assert_eq!(vy, 0.0);
    let mut last = vx;
    for _ in 0..200 {
        let steering = control_player(&ON, &keys(false, false, false, false)).unwrap();
        vx = drive_axis(vx, acc, dcc, delta, steering.x);
        assert!(vx >= 0.0);
        assert!(vx <= last);
        last = vx;
    }
    assert!(vx < 0.001);
}

#[test]
fn a_spike_in_elapsed_time_does_not_break_the_limit() {
    for held in [keys(false, false, false, true), keys(false, false, true, false), keys(false, false, false, false)] {
        let steering = control_player(&ON, &held).unwrap();
        for start in [-3.0f32, -1.5, 0.0, 1.5, 3.0] {
            for delta in [0.0f32, 0.5, 1.0, 250.0, 1.0e9] {
                let v = drive_axis(start, 0.1, 0.1, delta, steering.x);
                assert!((-3.0..=3.0).contains(&v));
            }
        }
    }
}

#[test]
fn the_camera_sits_on_the_player() {
    assert_eq!(camera_follow_player(Some((12.5f32, -3.0f32)), (0.0, 0.0)), (12.5, -3.0));
    assert_eq!(camera_follow_player(Some((7i32, 9i32)), (0, 0)), (7, 9));
}

#[test]
fn the_camera_goes_home_without_a_player() {
    assert_eq!(camera_follow_player(None, (0.0f32, 0.0f32)), (0.0, 0.0));
    assert_eq!(camera_follow_player(None::<(i32, i32)>, (0, 0)), (0, 0));
}
