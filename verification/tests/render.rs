use raytracer::buffers::build_scene_buffers;
use raytracer::input::{Controller, Key, LightIntent, MoveIntent};
use raytracer::params::IParams;
use raytracer::render::{FrameDecision, FramePlan, Phase, RenderLoop};
use raytracer::scalar::Scalar;
use raytracer::scenes::spheres;
use raytracer::targets::{RenderTargets, ResizeAction};
use raytracer::vector::{Mat3, Vec3};

fn fresh() -> RenderLoop {
    RenderLoop::new(RenderTargets::new(1280, 720).unwrap(), 6, 1)
}

fn frame(l: &mut RenderLoop, c: &Controller, mouse_moved: bool) -> FramePlan {
    assert!(l.can_count(c, mouse_moved, true));
    let plan = match l.redraw(c, mouse_moved, true) {
        FrameDecision::Render(plan) => plan,
        other => panic!("no frame: {other:?}"),
    };
    assert!(l.presented());
    plan
}

#[test]
fn a_new_loop_is_idle_and_has_accumulated_nothing() {
    let l = fresh();
    assert_eq!(l.phase, Phase::Idle);
    assert_eq!(l.accumulated_frames, 0);
    assert_eq!(l.sphere_count, 6);
    assert_eq!(l.triangle_mesh_count, 1);
    assert_eq!(l.targets, RenderTargets::new(1280, 720).unwrap());
    assert!(!l.is_closing());
}

#[test]
fn undisturbed_frames_count_up_by_one() {
    let mut l = fresh();
    let c = Controller::new();
    for n in 1..=50 {
        let plan = frame(&mut l, &c, false);
        assert_eq!(plan.accumulated_frames, n);
        assert_eq!(l.accumulated_frames, n);
    }
}

#[test]
fn disturbed_frames_start_anew() {
    let mut l = fresh();
    let mut c = Controller::new();
    for _ in 0..5 {
        frame(&mut l, &c, false);
    }
    assert_eq!(frame(&mut l, &c, true).accumulated_frames, 0);
    assert_eq!(frame(&mut l, &c, true).accumulated_frames, 0);
    assert_eq!(frame(&mut l, &c, false).accumulated_frames, 1);
    assert_eq!(frame(&mut l, &c, false).accumulated_frames, 2);
    c.key_event(Key::KeyW, true);
    assert_eq!(frame(&mut l, &c, false).accumulated_frames, 0);
    assert_eq!(frame(&mut l, &c, false).accumulated_frames, 0);
    c.key_event(Key::KeyW, false);
    assert_eq!(frame(&mut l, &c, false).accumulated_frames, 1);
    c.key_event(Key::ArrowLeft, true);
    assert_eq!(frame(&mut l, &c, false).accumulated_frames, 0);
    c.key_event(Key::ArrowLeft, false);
    c.key_event(Key::ControlLeft, true);
    c.key_event(Key::Escape, true);
    assert_eq!(frame(&mut l, &c, false).accumulated_frames, 1);
    assert_eq!(frame(&mut l, &c, false).accumulated_frames, 2);
}

#[test]
fn the_plan_holds_what_the_frame_needs() {
    let mut l = fresh();
    let mut c = Controller::new();
    c.key_event(Key::KeyS, true);
    c.key_event(Key::ArrowDown, true);
    c.key_event(Key::ControlLeft, true);
    let plan = frame(&mut l, &c, false);
    assert_eq!(
        plan,
        FramePlan {
            accumulated_frames: 0,
            width: 1280,
            height: 720,
            groups_x: 320,
            groups_y: 180,
            sphere_count: 6,
            triangle_mesh_count: 1,
            movement: MoveIntent { forward: -1, right: 0, up: 0 },
            light: LightIntent { about_x: 1, about_z: 0 },
            speed: 30,
            look_scale: 1280,
        }
    );
}

#[test]
fn the_plan_becomes_the_parameters() {
    let (balls, meshes) = spheres();
    let buffers = build_scene_buffers(&balls, &meshes).unwrap();
    let targets = RenderTargets::new(801, 600).unwrap();
    let mut l = RenderLoop::new(targets, buffers.sphere_count, buffers.mesh_count);
    let c = Controller::new();
    frame(&mut l, &c, false);
    let plan = frame(&mut l, &c, false);
    let one = Scalar::from_bits(1.0f32.to_bits());
    let zero = Scalar::from_bits(0);
    let pos = Vec3::new(zero, zero, Scalar::from_bits(5.0f32.to_bits()));
    let dir = Mat3::from_cols(
        Vec3::new(one, zero, zero),
        Vec3::new(zero, one, zero),
        Vec3::new(zero, zero, one),
    );
    let light = Vec3::new(zero, one, zero);
    let seed = Scalar::from_bits(0.5f32.to_bits());
    let p = plan.params(pos, dir, light, seed);
    assert_eq!(
        p,
        IParams {
            camera_pos: pos,
            random_seed: seed,
            camera_dir: dir,
            light_dir: light,
            accumulated_frames: 2,
            width: 801,
            height: 600,
            triangle_mesh_count: 1,
            sphere_count: 6,
        }
    );
    assert_eq!(p.sphere_count as usize, balls.len());
    assert_eq!(p.triangle_mesh_count as usize, meshes.len());
    assert_eq!((plan.groups_x, plan.groups_y), (201, 150));
    assert_eq!(IParams::decode(&p.encode()), Some(p));
}

#[test]
fn a_frame_without_a_surface_is_skipped() {
    let mut l = fresh();
    let c = Controller::new();
    frame(&mut l, &c, false);
    let before = l;
    assert_eq!(l.redraw(&c, false, false), FrameDecision::Skip);
    assert_eq!(l, before);
    assert_eq!(l.redraw(&c, true, false), FrameDecision::Skip);
    assert_eq!(l, before);
    assert!(!l.presented());
    assert_eq!(l, before);
    assert_eq!(frame(&mut l, &c, false).accumulated_frames, 2);
}

#[test]
fn a_loop_that_is_not_idle_holds() {
    let mut l = fresh();
    let c = Controller::new();
    assert!(matches!(l.redraw(&c, false, true), FrameDecision::Render(_)));
    assert_eq!(l.phase, Phase::Rendering);
    let busy = l;
    assert_eq!(l.redraw(&c, false, true), FrameDecision::Hold);
    assert_eq!(l.redraw(&c, true, false), FrameDecision::Hold);
    assert_eq!(l.resize(800, 600), ResizeAction::Ignore);
    l.rebuilt();
    assert_eq!(l, busy);
    assert!(l.presented());
    assert_eq!(l.phase, Phase::Idle);
    assert_eq!(l.accumulated_frames, 1);
}

#[test]
fn resize_rebuilds_and_then_renders_at_the_new_size() {
    let mut l = fresh();
    let c = Controller::new();
    frame(&mut l, &c, false);
    assert_eq!(
        l.resize(800, 600),
        ResizeAction::Rebuild { width: 800, height: 600, generation: 1 }
    );
    assert_eq!(l.phase, Phase::Resizing);
    assert_eq!((l.targets.width(), l.targets.height()), (800, 600));
    assert_eq!(l.accumulated_frames, 1);
    assert_eq!(l.redraw(&c, false, true), FrameDecision::Hold);
    assert!(!l.presented());
    l.rebuilt();
    assert_eq!(l.phase, Phase::Idle);
    let plan = frame(&mut l, &c, false);
    assert_eq!((plan.width, plan.height, plan.groups_x, plan.groups_y), (800, 600, 200, 150));
    assert_eq!(plan.look_scale, 800);
    assert_eq!(plan.accumulated_frames, 2);
}

#[test]
fn resize_without_area_leaves_the_loop_alone() {
    let mut l = fresh();
    let c = Controller::new();
    frame(&mut l, &c, false);
    let before = l;
    for (w, h) in [(0, 0), (0, 5), (5, 0)] {
        assert_eq!(l.resize(w, h), ResizeAction::Ignore);
        assert_eq!(l, before);
    }
    assert_eq!(l.phase, Phase::Idle);
}

#[test]
fn closing_ends_the_loop() {
    let mut l = fresh();
    let c = Controller::new();
    frame(&mut l, &c, false);
    l.close();
    assert!(l.is_closing());
    assert_eq!(l.phase, Phase::Closing);
    let closed = l;
    assert_eq!(l.redraw(&c, false, true), FrameDecision::Hold);
    assert_eq!(l.resize(10, 10), ResizeAction::Ignore);
    assert!(!l.presented());
    l.rebuilt();
    l.close();
    assert_eq!(l, closed);
    assert_eq!(l.accumulated_frames, 1);
}

#[test]
fn a_full_count_cannot_be_counted_up() {
    let mut l = fresh();
    l.accumulated_frames = u32::MAX;
    let mut c = Controller::new();
    assert!(!l.can_count(&c, false, true));
    assert!(l.can_count(&c, true, true));
    assert!(l.can_count(&c, false, false));
    c.key_event(Key::Space, true);
    assert!(l.can_count(&c, false, true));
    assert_eq!(frame(&mut l, &c, false).accumulated_frames, 0);
    l.accumulated_frames = u32::MAX - 1;
    c.key_event(Key::Space, false);
    assert!(l.can_count(&c, false, true));
    assert_eq!(frame(&mut l, &c, false).accumulated_frames, u32::MAX);
    l.close();
    l.accumulated_frames = u32::MAX;
    assert!(l.can_count(&c, false, true));
}
