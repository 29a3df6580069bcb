use glam::{DVec2, EulerRot, Mat3A, Vec3A};
use scene_viewer::keys::KeyBindings;
use scene_viewer::pointer::{Look, PointerCapture, ABSOLUTE_DAMPING, LOOK_SCALE};
use scene_viewer::viewer::{Action, Event, Frame, SceneViewer};

const BINDINGS: KeyBindings = KeyBindings {
    forward: 0x11,
    back: 0x1f,
    left: 0x1e,
    right: 0x20,
    up: 0x10,
    run: 0x2a,
    print_pose: 0x34,
    release: 0x01,
    dump_profile: 0x19,
};

fn frame_of(action: Action<DVec2>) -> Frame {
    match action {
        Action::Advance(frame) => frame,
        other => panic!("not a frame: {:?}", other),
    }
}

fn key(viewer: &mut SceneViewer<DVec2>, scancode: u32, pressed: bool) {
    assert_eq!(viewer.handle_event(Event::KeyChanged { scancode, pressed }), Action::Idle);
}

fn moved(viewer: &mut SceneViewer<DVec2>, x: f64, y: f64) -> Action<DVec2> {
    viewer.handle_event(Event::PointerMoved { sample: DVec2::new(x, y) })
}

/// Moves a camera as a frame asks, with the steps added as they come.
fn displacement(frame: &Frame, pitch: f32, yaw: f32, walk: f32, run: f32) -> Vec3A {
    let rotation = Mat3A::from_euler(EulerRot::XYZ, -pitch, -yaw, 0.0).transpose();
    let forward = -rotation.z_axis;
    let up = rotation.y_axis;
    let side = -rotation.x_axis;
    let velocity = if frame.run { run } else { walk };
    let seconds = std::time::Duration::from_nanos(frame.timing.elapsed_nanos).as_secs_f32();
    let mut location = Vec3A::ZERO;
    if frame.forward {
        location += forward * velocity * seconds;
    }
    if frame.back {
        location -= forward * velocity * seconds;
    }
    if frame.left {
        location += side * velocity * seconds;
    }
    if frame.right {
        location -= side * velocity * seconds;
    }
    if frame.up {
        location += up * velocity * seconds;
    }
    location
}

const TAU: f32 = std::f32::consts::PI * 2.0;
const PITCH_LIMIT: f32 = std::f32::consts::FRAC_PI_2 - 0.0001;

/// Turns a camera as an action asks, the way a caller does: one wrap of the
/// yaw, and the pitch kept short of the poles.
fn turn(yaw: &mut f32, pitch: &mut f32, action: Action<DVec2>) {
    let delta = match action {
        Action::Turn(Look::Still) => return,
        Action::Turn(Look::By { delta }) => delta,
        Action::Turn(Look::Between { previous, current }) => {
            (current - previous) / f64::from(ABSOLUTE_DAMPING)
        }
        other => panic!("not a turn: {:?}", other),
    };
    *yaw -= (delta.x / f64::from(LOOK_SCALE)) as f32;
    *pitch -= (delta.y / f64::from(LOOK_SCALE)) as f32;
    if *yaw < 0.0 {
        *yaw += TAU;
    } else if *yaw >= TAU {
        *yaw -= TAU;
    }
    *pitch = pitch.clamp(-PITCH_LIMIT, PITCH_LIMIT);
}

#[test]
fn yaw_wraps_once_either_way() {
    let mut viewer: SceneViewer<DVec2> = SceneViewer::new(false, BINDINGS, 0);
    viewer.handle_event(Event::CaptureRequested);
    let (mut yaw, mut pitch) = (0.1_f32, 0.0_f32);
    turn(&mut yaw, &mut pitch, moved(&mut viewer, 200.0, 0.0));
    assert!((yaw - (0.1 - 0.2 + TAU)).abs() < 1.0e-6);
    assert!((0.0..TAU).contains(&yaw));
    turn(&mut yaw, &mut pitch, moved(&mut viewer, -300.0, 0.0));
    assert!((yaw - 0.2).abs() < 1.0e-5);
    // A movement of more than a full turn is wrapped once, not reduced.
    turn(&mut yaw, &mut pitch, moved(&mut viewer, -7000.0, 0.0));
    assert!((yaw - (0.2 + 7.0 - TAU)).abs() < 1.0e-5);
    assert!((0.0..TAU).contains(&yaw));
    turn(&mut yaw, &mut pitch, moved(&mut viewer, -14000.0, 0.0));
    assert!((yaw - (0.2 + 7.0 - TAU + 14.0 - TAU)).abs() < 1.0e-4);
    assert!(yaw >= TAU);
    assert_eq!(pitch, 0.0);
}

#[test]
fn pitch_stops_short_of_the_poles() {
    let mut viewer: SceneViewer<DVec2> = SceneViewer::new(false, BINDINGS, 0);
    viewer.handle_event(Event::CaptureRequested);
    let (mut yaw, mut pitch) = (1.0_f32, -std::f32::consts::FRAC_PI_8);
    turn(&mut yaw, &mut pitch, moved(&mut viewer, 0.0, -1.0e9));
    assert_eq!(pitch, PITCH_LIMIT);
    assert!(pitch < std::f32::consts::FRAC_PI_2);
    turn(&mut yaw, &mut pitch, moved(&mut viewer, 0.0, 1.0e9));
    assert_eq!(pitch, -PITCH_LIMIT);
    assert!(pitch > -std::f32::consts::FRAC_PI_2);
    turn(&mut yaw, &mut pitch, moved(&mut viewer, 0.0, -500.0));
    assert!((pitch - (-PITCH_LIMIT + 0.5)).abs() < 1.0e-6);
    assert_eq!(yaw, 1.0);
}

#[test]
fn uncaptured_motion_leaves_the_pose() {
    for absolute in [false, true] {
        let mut viewer: SceneViewer<DVec2> = SceneViewer::new(absolute, BINDINGS, 0);
        let (mut yaw, mut pitch) = (std::f32::consts::FRAC_PI_4, -std::f32::consts::FRAC_PI_8);
        for i in 0..10 {
            turn(&mut yaw, &mut pitch, moved(&mut viewer, 37.0 * i as f64, -11.0 * i as f64));
        }
        assert_eq!(yaw, std::f32::consts::FRAC_PI_4);
        assert_eq!(pitch, -std::f32::consts::FRAC_PI_8);
    }
}

#[test]
fn absolute_pointer_turns_from_the_second_sample() {
    let mut viewer: SceneViewer<DVec2> = SceneViewer::new(true, BINDINGS, 0);
    viewer.handle_event(Event::CaptureRequested);
    let (mut yaw, mut pitch) = (1.0_f32, 0.5_f32);
    turn(&mut yaw, &mut pitch, moved(&mut viewer, 100.0, 200.0));
    assert_eq!((yaw, pitch), (1.0, 0.5));
    turn(&mut yaw, &mut pitch, moved(&mut viewer, 108.0, 196.0));
    assert!((yaw - (1.0 - 0.002)).abs() < 1.0e-6);
    assert!((pitch - (0.5 + 0.001)).abs() < 1.0e-6);
    turn(&mut yaw, &mut pitch, moved(&mut viewer, 108.0, 200.0));
    assert!((yaw - (1.0 - 0.002)).abs() < 1.0e-6);
    assert!((pitch - 0.5).abs() < 1.0e-6);
}

#[test]
fn new_viewer_is_free_and_quiet() {
    let mut viewer: SceneViewer<DVec2> = SceneViewer::new(false, BINDINGS, 0);
    assert!(!viewer.grabbed());
    assert!(!viewer.pressed(BINDINGS.forward));
    let frame = frame_of(viewer.handle_event(Event::Tick { now: 1_000_000 }));
    assert_eq!(frame.timing.elapsed_nanos, 1_000_000);
    assert!(frame.timing.accepted);
    assert_eq!(frame.timing.report, None);
    assert!(!frame.forward && !frame.back && !frame.left && !frame.right && !frame.up);
    assert!(!frame.run && !frame.print_pose && !frame.release_capture && !frame.dump_profile);
}

#[test]
fn uncaptured_motion_is_ignored() {
    for absolute in [false, true] {
        let mut viewer: SceneViewer<DVec2> = SceneViewer::new(absolute, BINDINGS, 0);
        for i in 0..10 {
            let action = moved(&mut viewer, 100.0 * i as f64, -50.0);
            assert_eq!(action, Action::Turn(Look::Still));
            assert!(!viewer.grabbed());
        }
        // Nothing was kept: the first captured sample of an absolute pointer
        // still has nothing to be measured from.
        assert_eq!(viewer.handle_event(Event::CaptureRequested), Action::Grab);
        let action = moved(&mut viewer, 1.0, 2.0);
        if absolute {
            assert_eq!(action, Action::Turn(Look::Still));
        } else {
            assert_eq!(action, Action::Turn(Look::By { delta: DVec2::new(1.0, 2.0) }));
        }
    }
}

#[test]
fn capture_is_requested_once() {
    let mut viewer: SceneViewer<DVec2> = SceneViewer::new(false, BINDINGS, 0);
    assert_eq!(viewer.handle_event(Event::CaptureRequested), Action::Grab);
    assert!(viewer.grabbed());
    assert_eq!(viewer.handle_event(Event::CaptureRequested), Action::Idle);
    assert!(viewer.grabbed());
}

#[test]
fn relative_samples_are_movements() {
    let mut viewer: SceneViewer<DVec2> = SceneViewer::new(false, BINDINGS, 0);
    viewer.handle_event(Event::CaptureRequested);
    assert_eq!(moved(&mut viewer, 3.0, -4.0), Action::Turn(Look::By { delta: DVec2::new(3.0, -4.0) }));
    assert_eq!(moved(&mut viewer, 0.0, 0.0), Action::Turn(Look::By { delta: DVec2::ZERO }));
    assert_eq!(moved(&mut viewer, 7000.0, 1.0), Action::Turn(Look::By { delta: DVec2::new(7000.0, 1.0) }));
}

#[test]
fn absolute_first_sample_is_dropped() {
    let mut viewer: SceneViewer<DVec2> = SceneViewer::new(true, BINDINGS, 0);
    viewer.handle_event(Event::CaptureRequested);
    assert_eq!(moved(&mut viewer, 100.0, 200.0), Action::Turn(Look::Still));
    let second = moved(&mut viewer, 108.0, 196.0);
    assert_eq!(
        second,
        Action::Turn(Look::Between {
            previous: DVec2::new(100.0, 200.0),
            current: DVec2::new(108.0, 196.0)
        })
    );
    // The movement that the caller makes of it.
    if let Action::Turn(Look::Between { previous, current }) = second {
        let delta = (current - previous) / f64::from(ABSOLUTE_DAMPING);
        assert_eq!(delta, DVec2::new(2.0, -1.0));
        assert_eq!((delta.x / f64::from(LOOK_SCALE)) as f32, 0.002);
    }
    let third = moved(&mut viewer, 108.0, 196.0);
    assert_eq!(
        third,
        Action::Turn(Look::Between {
            previous: DVec2::new(108.0, 196.0),
            current: DVec2::new(108.0, 196.0)
        })
    );
}

#[test]
fn absolute_sample_is_forgotten_on_release() {
    let releases: [Event<DVec2>; 2] = [Event::FocusLost, Event::CaptureReleased];
    for release in releases {
        let mut viewer: SceneViewer<DVec2> = SceneViewer::new(true, BINDINGS, 0);
        viewer.handle_event(Event::CaptureRequested);
        moved(&mut viewer, 10.0, 10.0);
        assert_eq!(viewer.handle_event(release), Action::Ungrab);
        assert!(!viewer.grabbed());
        assert_eq!(moved(&mut viewer, 500.0, 500.0), Action::Turn(Look::Still));
        assert_eq!(viewer.handle_event(Event::CaptureRequested), Action::Grab);
        assert_eq!(moved(&mut viewer, 20.0, 20.0), Action::Turn(Look::Still));
        assert_eq!(
            moved(&mut viewer, 24.0, 20.0),
            Action::Turn(Look::Between {
                previous: DVec2::new(20.0, 20.0),
                current: DVec2::new(24.0, 20.0)
            })
        );
    }
}

#[test]
fn release_key_releases_at_the_tick() {
    let mut viewer: SceneViewer<DVec2> = SceneViewer::new(true, BINDINGS, 0);
    viewer.handle_event(Event::CaptureRequested);
    moved(&mut viewer, 10.0, 10.0);
    key(&mut viewer, BINDINGS.release, true);
    assert!(viewer.grabbed());
    let frame = frame_of(viewer.handle_event(Event::Tick { now: 1_000 }));
    assert!(frame.release_capture);
    assert!(!viewer.grabbed());
    key(&mut viewer, BINDINGS.release, false);
    let frame = frame_of(viewer.handle_event(Event::Tick { now: 2_000 }));
    assert!(!frame.release_capture);
    viewer.handle_event(Event::CaptureRequested);
    assert_eq!(moved(&mut viewer, 11.0, 10.0), Action::Turn(Look::Still));
}

#[test]
fn focus_loss_releases_even_when_free() {
    let mut viewer: SceneViewer<DVec2> = SceneViewer::new(false, BINDINGS, 0);
    assert_eq!(viewer.handle_event(Event::FocusLost), Action::Ungrab);
    assert!(!viewer.grabbed());
}

#[test]
fn each_key_sets_its_own_flag() {
    let cases: [(u32, fn(&Frame) -> bool); 9] = [
        (BINDINGS.forward, |f| f.forward),
        (BINDINGS.back, |f| f.back),
        (BINDINGS.left, |f| f.left),
        (BINDINGS.right, |f| f.right),
        (BINDINGS.up, |f| f.up),
        (BINDINGS.run, |f| f.run),
        (BINDINGS.print_pose, |f| f.print_pose),
        (BINDINGS.release, |f| f.release_capture),
        (BINDINGS.dump_profile, |f| f.dump_profile),
    ];
    for (index, (scancode, flag)) in cases.iter().enumerate() {
        let mut viewer: SceneViewer<DVec2> = SceneViewer::new(false, BINDINGS, 0);
        key(&mut viewer, *scancode, true);
        assert!(viewer.pressed(*scancode));
        let frame = frame_of(viewer.handle_event(Event::Tick { now: 10 }));
        for (other, (_, other_flag)) in cases.iter().enumerate() {
            assert_eq!(other_flag(&frame), other == index);
        }
        key(&mut viewer, *scancode, false);
        let frame = frame_of(viewer.handle_event(Event::Tick { now: 20 }));
        assert!(!flag(&frame));
    }
}

#[test]
fn unbound_keys_do_nothing() {
    let mut viewer: SceneViewer<DVec2> = SceneViewer::new(false, BINDINGS, 0);
    key(&mut viewer, 0x2c, true);
    key(&mut viewer, 0, true);
    let frame = frame_of(viewer.handle_event(Event::Tick { now: 10 }));
    assert!(!frame.forward && !frame.back && !frame.left && !frame.right && !frame.up);
    assert!(!frame.run && !frame.print_pose && !frame.release_capture && !frame.dump_profile);
}

#[test]
fn diagonal_movement_is_not_normalized() {
    let mut viewer: SceneViewer<DVec2> = SceneViewer::new(false, BINDINGS, 0);
    key(&mut viewer, BINDINGS.forward, true);
    key(&mut viewer, BINDINGS.right, true);
    let frame = frame_of(viewer.handle_event(Event::Tick { now: 1_000_000_000 }));
    assert!(frame.forward && frame.right && !frame.run);
    assert_eq!(frame.timing.elapsed_nanos, 1_000_000_000);
    let moved = displacement(&frame, -std::f32::consts::FRAC_PI_8, std::f32::consts::FRAC_PI_4, 10.0, 50.0);
    assert!((moved.length() - 10.0 * std::f32::consts::SQRT_2).abs() < 1.0e-4);
    assert!((moved.length() - 10.0).abs() > 4.0);
}

#[test]
fn single_key_moves_at_walk_speed_and_run_key_at_run_speed() {
    let mut viewer: SceneViewer<DVec2> = SceneViewer::new(false, BINDINGS, 0);
    key(&mut viewer, BINDINGS.forward, true);
    let frame = frame_of(viewer.handle_event(Event::Tick { now: 500_000_000 }));
    let moved = displacement(&frame, 0.0, 0.0, 10.0, 50.0);
    assert!((moved - Vec3A::new(0.0, 0.0, -5.0)).length() < 1.0e-5);
    key(&mut viewer, BINDINGS.run, true);
    let frame = frame_of(viewer.handle_event(Event::Tick { now: 1_000_000_000 }));
    assert!(frame.run);
    let moved = displacement(&frame, 0.0, 0.0, 10.0, 50.0);
    assert!((moved - Vec3A::new(0.0, 0.0, -25.0)).length() < 1.0e-4);
}

#[test]
fn opposite_keys_cancel() {
    let mut viewer: SceneViewer<DVec2> = SceneViewer::new(false, BINDINGS, 0);
    key(&mut viewer, BINDINGS.left, true);
    key(&mut viewer, BINDINGS.right, true);
    let frame = frame_of(viewer.handle_event(Event::Tick { now: 1_000_000_000 }));
    assert!(frame.left && frame.right);
    assert!(displacement(&frame, 0.3, 1.0, 10.0, 50.0).length() < 1.0e-5);
}

#[test]
fn handlers_agree_with_handle_event() {
    let mut by_event: SceneViewer<DVec2> = SceneViewer::new(true, BINDINGS, 7);
    let mut by_call: SceneViewer<DVec2> = SceneViewer::new(true, BINDINGS, 7);
    let a = DVec2::new(1.0, 1.0);
    let b = DVec2::new(5.0, 9.0);

    assert_eq!(by_event.handle_event(Event::CaptureRequested), Action::Grab);
    assert!(by_call.capture_requested());
    assert!(!by_call.capture_requested());
    by_event.handle_event(Event::KeyChanged { scancode: BINDINGS.up, pressed: true });
    by_call.key_changed(BINDINGS.up, true);
    assert_eq!(by_event.handle_event(Event::PointerMoved { sample: a }), Action::Turn(by_call.pointer_moved(a)));
    assert_eq!(by_event.handle_event(Event::PointerMoved { sample: b }), Action::Turn(by_call.pointer_moved(b)));
    assert_eq!(by_event.handle_event(Event::Tick { now: 1_007 }), Action::Advance(by_call.tick(1_007)));
    by_event.handle_event(Event::FocusLost);
    by_call.focus_lost();
    assert_eq!(by_event.grabbed(), by_call.grabbed());
    by_call.capture_requested();
    by_call.capture_released();
    assert!(!by_call.grabbed());
}

#[test]
fn viewer_reports_frames_once_a_second() {
    let mut viewer: SceneViewer<DVec2> = SceneViewer::new(false, BINDINGS, 0);
    let mut reports = 0;
    let mut now = 0;
    for _ in 0..250 {
        now += 10_000_000;
        let frame = frame_of(viewer.handle_event(Event::Tick { now }));
        if let Some(report) = frame.timing.report {
            reports += 1;
            assert_eq!(report.frames, 101);
            assert_eq!(report.elapsed_nanos, 1_010_000_000);
        }
    }
    assert_eq!(reports, 2);
}

#[test]
fn pointer_capture_alone() {
    let mut capture: PointerCapture<i32> = PointerCapture::new();
    assert!(!capture.grabbed());
    assert_eq!(capture.sample(true, 1), Look::Still);
    assert!(capture.request_grab());
    assert!(!capture.request_grab());
    assert_eq!(capture.sample(true, 2), Look::Still);
    assert_eq!(capture.sample(true, 5), Look::Between { previous: 2, current: 5 });
    assert_eq!(capture.sample(false, 9), Look::By { delta: 9 });
    assert_eq!(capture.sample(true, 6), Look::Between { previous: 5, current: 6 });
    capture.request_ungrab();
    assert!(!capture.grabbed());
    assert!(capture.request_grab());
    assert_eq!(capture.sample(true, 7), Look::Still);
}

#[test]
fn look_constants() {
    assert_eq!(LOOK_SCALE, 1000);
    assert_eq!(ABSOLUTE_DAMPING, 4);
}

#[test]
fn viewer_keeps_its_settings() {
    let mut viewer: SceneViewer<DVec2> = SceneViewer::new(true, BINDINGS, 0);
    assert!(viewer.absolute_mouse());
    assert_eq!(viewer.bindings(), BINDINGS);
    key(&mut viewer, BINDINGS.forward, true);
    viewer.handle_event(Event::CaptureRequested);
    viewer.handle_event(Event::Tick { now: 5 });
    assert!(viewer.absolute_mouse());
    assert_eq!(viewer.bindings(), BINDINGS);
    let relative: SceneViewer<DVec2> = SceneViewer::new(false, BINDINGS, 0);
    assert!(!relative.absolute_mouse());
}

#[test]
fn keys_stay_held_across_capture_changes() {
    let mut viewer: SceneViewer<DVec2> = SceneViewer::new(false, BINDINGS, 0);
    key(&mut viewer, BINDINGS.forward, true);
    viewer.handle_event(Event::CaptureRequested);
    viewer.handle_event(Event::FocusLost);
    moved(&mut viewer, 1.0, 1.0);
    assert!(viewer.pressed(BINDINGS.forward));
    let frame = frame_of(viewer.handle_event(Event::Tick { now: 5 }));
    assert!(frame.forward);
}
