use sph_gl::control::{Action, Event, MouseButton, Simulation, BURST_SIZE, MAX_PARTICLES};
use sph_gl::spawn::{SpawnGrid, JITTER_SPAN};

fn middle() -> Event {
    Event::MouseButtonDown { button: MouseButton::Middle }
}

fn right() -> Event {
    Event::MouseButtonDown { button: MouseButton::Right }
}

#[test]
fn starts_empty() {
    let (sim, points) = Simulation::new(0, 123);
    assert!(points.is_empty());
    assert_eq!(sim.num_particles(), 0);
    assert_eq!(sim.mouse_pos(), (0, 0));
    assert!(!sim.paused());
    assert_eq!(sim.frames(), 0);
    assert_eq!(sim.real_fps(), 0);
}

#[test]
fn initial_layout() {
    let (sim, points) = Simulation::new(60, 0);
    assert_eq!(sim.num_particles(), 60);
    assert_eq!(points.len(), 60);
    let g = SpawnGrid::initial();
    for (k, p) in points.iter().enumerate() {
        let expected = g.spawn_point(k, p.jitter);
        assert_eq!(*p, expected);
        assert!(p.jitter >= 0 && p.jitter < JITTER_SPAN);
    }
    assert_eq!((points[49].base_x, points[49].base_y), (14, 32));
}

#[test]
fn initial_beyond_grid_capacity() {
    let (sim, points) = Simulation::new(MAX_PARTICLES, 0);
    assert_eq!(sim.num_particles(), MAX_PARTICLES);
    assert_eq!(points.len(), 49 * 55);
}

#[test]
fn mouse_motion_flips_y() {
    let (mut sim, _) = Simulation::new(0, 0);
    assert!(sim.permits(Event::MouseMotion { x: 10, y: 100 }));
    assert!(matches!(sim.handle_event(Event::MouseMotion { x: 10, y: 100 }), Action::Continue));
    assert_eq!(sim.mouse_pos(), (10, 800));
    assert!(!sim.permits(Event::MouseMotion { x: 0, y: i32::MIN }));
}

#[test]
fn middle_click_spawns_burst_at_mouse() {
    let (mut sim, _) = Simulation::new(5, 0);
    sim.handle_event(Event::MouseMotion { x: 400, y: 500 });
    assert!(sim.permits(middle()));
    match sim.handle_event(middle()) {
        Action::Resize { read_back, upload, spawned } => {
            assert_eq!(read_back, 5);
            assert_eq!(upload, 105);
            assert_eq!(spawned.len(), BURST_SIZE);
            let g = SpawnGrid::burst(400, 400);
            for (k, p) in spawned.iter().enumerate() {
                assert_eq!(*p, g.spawn_point(k, p.jitter));
                assert!(p.jitter >= 0 && p.jitter < JITTER_SPAN);
            }
            assert_eq!((spawned[0].base_x, spawned[0].base_y), (414, 416));
            // The jitter is drawn afresh for every particle.
            assert!(spawned.iter().any(|p| p.jitter != spawned[0].jitter));
        }
        _ => panic!("expected a resize"),
    }
    assert_eq!(sim.num_particles(), 105);
}

#[test]
fn right_click_removes_burst() {
    let (mut sim, _) = Simulation::new(250, 0);
    match sim.handle_event(right()) {
        Action::Resize { read_back, upload, spawned } => {
            assert_eq!((read_back, upload), (250, 150));
            assert!(spawned.is_empty());
        }
        _ => panic!("expected a resize"),
    }
    assert_eq!(sim.num_particles(), 150);
}

#[test]
fn burst_then_remove_restores() {
    let (mut sim, _) = Simulation::new(42, 0);
    sim.handle_event(middle());
    sim.handle_event(right());
    assert_eq!(sim.num_particles(), 42);
}

#[test]
fn refused_clicks() {
    let (sim, _) = Simulation::new(99, 0);
    assert!(!sim.permits(right()));
    let (sim, _) = Simulation::new(MAX_PARTICLES - 99, 0);
    assert!(!sim.permits(middle()));
    let (sim, _) = Simulation::new(MAX_PARTICLES - 100, 0);
    assert!(sim.permits(middle()));
    assert!(sim.permits(Event::MouseButtonDown { button: MouseButton::Left }));
}

#[test]
fn other_events_change_nothing() {
    let (mut sim, _) = Simulation::new(7, 0);
    assert!(matches!(sim.handle_event(Event::Quit), Action::Exit));
    assert!(matches!(sim.handle_event(Event::Other), Action::Continue));
    assert!(matches!(
        sim.handle_event(Event::MouseButtonDown { button: MouseButton::Left }),
        Action::Continue
    ));
    assert!(matches!(
        sim.handle_event(Event::MouseButtonDown { button: MouseButton::Other }),
        Action::Continue
    ));
    assert_eq!(sim.num_particles(), 7);
    assert_eq!(sim.mouse_pos(), (0, 0));
}

#[test]
fn frame_counter() {
    let (mut sim, _) = Simulation::new(0, 1000);
    for t in [1000u32, 1500, 2000] {
        assert!(sim.tick_permits(t));
        sim.end_frame(t, t);
    }
    assert_eq!(sim.frames(), 3);
    assert_eq!(sim.real_fps(), 0);
    // 1001 ms after the window started: the window closes.
    sim.end_frame(2001, 2003);
    assert_eq!(sim.frames(), 0);
    assert_eq!(sim.real_fps(), 3);
    // The new window starts at the second reading.
    sim.end_frame(3003, 3003);
    assert_eq!(sim.frames(), 1);
    sim.end_frame(3004, 3010);
    assert_eq!(sim.frames(), 0);
    assert_eq!(sim.real_fps(), 1);
    assert!(!sim.tick_permits(3009));
}

#[test]
fn pause_flag() {
    let (mut sim, _) = Simulation::new(0, 0);
    sim.set_paused(true);
    assert!(sim.paused());
    assert!(sim.frame_plan().passes.len() == 2);
    sim.set_paused(false);
    assert!(sim.frame_plan().passes.len() == 9);
}
