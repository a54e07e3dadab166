use tiny_render::{
    Action, App, Buffer, BufferType, Camera, Command, Input, ObjectInformation, ObjectManager,
    Phase, Scene, ShaderProgram, Uniform, VertexArray, Window, WindowEvent, WindowHint,
    WindowOptions,
};

type TestApp = App<u32, &'static str, &'static str>;
type TestScene = Scene<&'static str, &'static str>;

fn camera() -> Camera {
    Camera { view: [[1; 4]; 4], projection: [[2; 4]; 4], orientation: [3; 4], position: [4; 3] }
}

fn info(vao: u32, buffer: u32) -> ObjectInformation {
    ObjectInformation { vao: VertexArray(vao), inst_vbo: Buffer { bo: buffer, ty: BufferType::Array } }
}

fn manager() -> ObjectManager {
    ObjectManager::new(info(1, 4), info(5, 8))
}

fn scene(on_event: bool, on_update: bool) -> TestScene {
    let mut scene = Scene::new(camera());
    if on_event {
        scene.listener_mut().attach_on_event("event");
    }
    if on_update {
        scene.listener_mut().attach_on_update("update");
    }
    scene
}

fn window(handle: u32, scene: usize) -> Window<u32> {
    let opts = WindowOptions { width: 800, height: 600, scene, title: format!("window {}", handle) };
    Window::new(opts, handle, ShaderProgram(70 + handle)).0
}

fn perform(window: usize, command: Command) -> Action<u32> {
    Action::Perform { window, command }
}

/// Runs one tick in which every queue is empty and no window is closing, and
/// returns all actions of it.
fn quiet_tick(app: &mut TestApp) -> Vec<Action<u32>> {
    assert_eq!(app.phase(), Phase::PollEvents);
    let mut actions = app.run(Input::Tick { elapsed: 16_000_000 });
    loop {
        let input = match actions.last() {
            Some(Action::Exit) => return actions,
            Some(Action::TakeEvent { .. }) => Input::QueueEmpty { should_close: false },
            _ => Input::Done,
        };
        if app.phase() == Phase::PollEvents {
            return actions;
        }
        actions.extend(app.run(input));
    }
}

fn update_calls(actions: &[Action<u32>], scene: usize) -> usize {
    actions
        .iter()
        .filter(|a| matches!(a, Action::InvokeOnUpdate { scene: s, .. } if *s == scene))
        .count()
}

#[test]
fn run_without_windows_exits_at_once() {
    let mut app = TestApp::new(vec![scene(true, true)], manager());
    assert_eq!(app.phase(), Phase::PollEvents);
    assert!(app.should_close());
    assert_eq!(app.run(Input::Done), vec![Action::Exit]);
    assert_eq!(app.phase(), Phase::PollEvents);
    assert_eq!(app.run(Input::QueueEmpty { should_close: false }), vec![Action::Exit]);
    assert_eq!(app.run(Input::Event(WindowEvent::Other)), vec![Action::Exit]);
}

#[test]
fn two_windows_on_one_scene_update_it_twice_in_a_tick() {
    let mut app = TestApp::new(vec![scene(false, true)], manager());
    app.create_window(window(1, 0));
    app.create_window(window(2, 0));
    let actions = quiet_tick(&mut app);
    assert_eq!(update_calls(&actions, 0), 2);
    let updates: Vec<&Action<u32>> =
        actions.iter().filter(|a| matches!(a, Action::InvokeOnUpdate { .. })).collect();
    assert_eq!(
        updates,
        vec![
            &Action::InvokeOnUpdate { window: 0, scene: 0, delta: 16_000_000 },
            &Action::InvokeOnUpdate { window: 1, scene: 0, delta: 16_000_000 },
        ]
    );
    assert_eq!(app.phase(), Phase::PollEvents);
    assert_eq!(app.window_count(), 2);
    // and again in the next tick
    assert_eq!(update_calls(&quiet_tick(&mut app), 0), 2);
}

#[test]
fn every_window_updates_the_scene_that_it_shows() {
    let mut app = TestApp::new(vec![scene(false, true), scene(false, true), scene(false, false)], manager());
    app.create_window(window(1, 1));
    app.create_window(window(2, 0));
    app.create_window(window(3, 1));
    app.create_window(window(4, 2));
    app.create_window(window(5, 1));
    let actions = quiet_tick(&mut app);
    assert_eq!(update_calls(&actions, 0), 1);
    assert_eq!(update_calls(&actions, 1), 3);
    assert_eq!(update_calls(&actions, 2), 0);
}

#[test]
fn a_tick_goes_through_the_phases_in_order() {
    let mut app = TestApp::new(vec![scene(true, true)], manager());
    app.create_window(window(1, 0));
    app.create_window(window(2, 0));

    assert_eq!(
        app.run(Input::Tick { elapsed: 5 }),
        vec![Action::PollEvents, Action::TakeEvent { window: 0 }]
    );
    assert_eq!(app.phase(), Phase::DispatchEvents { window: 0 });
    assert_eq!(app.delta(), 5);
    assert_eq!(
        app.run(Input::QueueEmpty { should_close: false }),
        vec![Action::TakeEvent { window: 1 }]
    );
    assert_eq!(app.phase(), Phase::DispatchEvents { window: 1 });
    assert_eq!(app.run(Input::QueueEmpty { should_close: false }), vec![]);

    for index in 0..2usize {
        assert_eq!(app.phase(), Phase::Update { window: index });
        assert_eq!(
            app.run(Input::Done),
            vec![Action::InvokeOnUpdate { window: index, scene: 0, delta: 5 }]
        );
        assert_eq!(app.phase(), Phase::Render { window: index });
        let frame = app.run(Input::Done);
        assert_eq!(frame[0], perform(index, Command::MakeCurrent));
        assert_eq!(frame[1], perform(index, Command::UseProgram { program: 71 + index as u32 }));
        assert_eq!(frame.last(), Some(&perform(index, Command::Clear)));
        assert_eq!(app.phase(), Phase::Present { window: index });
        assert_eq!(app.run(Input::Done), vec![perform(index, Command::SwapBuffers)]);
    }
    assert_eq!(app.phase(), Phase::PollEvents);
}

#[test]
fn a_frame_hands_over_camera_and_clear_colour_before_it_draws() {
    let mut first = scene(false, false);
    first.set_clear_color(9, 8, 7, 6);
    first.add_object(1, [1; 3], [2; 3], [3; 4], [4; 4]);
    let mut app = TestApp::new(vec![first], manager());
    app.create_window(window(1, 0));
    let actions = quiet_tick(&mut app);
    let commands: Vec<Command> = actions
        .iter()
        .filter_map(|a| match a {
            Action::Perform { window: 0, command } => Some(*command),
            _ => None,
        })
        .collect();
    assert_eq!(
        commands,
        vec![
            Command::MakeCurrent,
            Command::UseProgram { program: 71 },
            Command::UniformMatrix { uniform: Uniform::CamView, matrix: [[1; 4]; 4] },
            Command::UniformMatrix { uniform: Uniform::CamProjection, matrix: [[2; 4]; 4] },
            Command::UniformRotation { uniform: Uniform::CamOrientation, quaternion: [3; 4] },
            Command::ClearColor { color: [9, 8, 7, 6] },
            Command::Clear,
            Command::BindVertexArray { array: 5 },
            Command::UniformVec3 { uniform: Uniform::ObjPosition, value: [1; 3] },
            Command::UniformVec3 { uniform: Uniform::ObjScale, value: [2; 3] },
            Command::UniformRotation { uniform: Uniform::ObjRotation, quaternion: [3; 4] },
            Command::UniformVec4 { uniform: Uniform::Color, value: [4; 4] },
            Command::DrawElements { count: 36 },
            Command::SwapBuffers,
        ]
    );
    assert!(!app.scene(0).unwrap().clear_color_dirty());
    // the next frame does not set the clear colour again
    let again = quiet_tick(&mut app);
    assert!(again
        .iter()
        .all(|a| !matches!(a, Action::Perform { command: Command::ClearColor { .. }, .. })));
}

#[test]
fn a_window_without_a_scene_is_passed_over() {
    let mut app = TestApp::new(vec![scene(true, true)], manager());
    app.create_window(window(1, 1));
    assert_eq!(
        app.run(Input::Done),
        vec![Action::PollEvents, Action::TakeEvent { window: 0 }]
    );
    // its events are dropped: no viewport, no flag, no callback
    assert_eq!(
        app.run(Input::Event(WindowEvent::Size(3, 4))),
        vec![Action::TakeEvent { window: 0 }]
    );
    assert_eq!(
        app.run(Input::Event(WindowEvent::Close)),
        vec![Action::TakeEvent { window: 0 }]
    );
    assert!(!app.window(0).unwrap().should_close());
    assert_eq!(app.run(Input::QueueEmpty { should_close: false }), vec![]);
    // no update, no frame, no swap
    assert_eq!(app.run(Input::Done), vec![]);
    assert_eq!(app.run(Input::Done), vec![]);
    assert_eq!(app.run(Input::Done), vec![]);
    assert_eq!(app.phase(), Phase::PollEvents);
    assert_eq!(app.window_count(), 1);
    // once the scene is there, the window is served
    app.register_scene(scene(false, true));
    assert_eq!(update_calls(&quiet_tick(&mut app), 1), 1);
}

#[test]
fn events_reach_the_callback_of_the_scene() {
    let mut app = TestApp::new(vec![scene(false, false), scene(true, false)], manager());
    app.create_window(window(1, 1));
    app.create_window(window(2, 0));
    app.run(Input::Done);
    assert_eq!(
        app.run(Input::Event(WindowEvent::Other)),
        vec![Action::InvokeOnEvent { window: 0, scene: 1 }, Action::TakeEvent { window: 0 }]
    );
    assert_eq!(
        app.run(Input::Event(WindowEvent::Size(640, 480))),
        vec![
            perform(0, Command::Viewport { x: 0, y: 0, width: 640, height: 480 }),
            Action::InvokeOnEvent { window: 0, scene: 1 },
            Action::TakeEvent { window: 0 },
        ]
    );
    assert_eq!(
        app.run(Input::QueueEmpty { should_close: false }),
        vec![Action::TakeEvent { window: 1 }]
    );
    // the scene of the second window has no callback for events
    assert_eq!(
        app.run(Input::Event(WindowEvent::Other)),
        vec![Action::TakeEvent { window: 1 }]
    );
    assert_eq!(
        app.run(Input::Event(WindowEvent::Size(1, 2))),
        vec![
            perform(1, Command::Viewport { x: 0, y: 0, width: 1, height: 2 }),
            Action::TakeEvent { window: 1 },
        ]
    );
}

#[test]
fn a_closed_window_is_released_before_the_updates() {
    let mut app = TestApp::new(vec![scene(true, true)], manager());
    app.create_window(window(1, 0));
    app.create_window(window(2, 0));
    app.create_window(window(3, 0));
    app.run(Input::Done);
    app.run(Input::QueueEmpty { should_close: false });
    assert_eq!(
        app.run(Input::Event(WindowEvent::Close)),
        vec![
            perform(1, Command::SetShouldClose { value: true }),
            Action::InvokeOnEvent { window: 1, scene: 0 },
            Action::TakeEvent { window: 1 },
        ]
    );
    assert!(app.window(1).unwrap().should_close());
    app.run(Input::QueueEmpty { should_close: true });
    let released = app.run(Input::QueueEmpty { should_close: false });
    assert_eq!(released.len(), 1);
    match &released[0] {
        Action::Destroy { closed } => {
            assert_eq!(closed.handle, 2);
            assert_eq!(closed.opts.title, "window 2");
        }
        other => panic!("expected a release, got {:?}", other),
    }
    assert_eq!(app.window_count(), 2);
    assert_eq!(app.window(0).unwrap().handle, 1);
    assert_eq!(app.window(1).unwrap().handle, 3);
    assert_eq!(app.phase(), Phase::Update { window: 0 });
    // the two windows that are left are served
    let mut updates = 0;
    while app.phase() != Phase::PollEvents {
        updates += update_calls(&app.run(Input::Done), 0);
    }
    assert_eq!(updates, 2);
}

#[test]
fn the_flag_that_the_windowing_system_reports_decides() {
    let mut app = TestApp::new(vec![scene(false, false)], manager());
    app.create_window(window(1, 0));
    app.run(Input::Done);
    app.run(Input::Event(WindowEvent::Close));
    assert!(app.window(0).unwrap().should_close());
    // something lowered the flag again before the queue was empty
    assert_eq!(app.run(Input::QueueEmpty { should_close: false }), vec![]);
    assert_eq!(app.window_count(), 1);
    assert!(!app.window(0).unwrap().should_close());
    assert_eq!(app.phase(), Phase::Update { window: 0 });
}

#[test]
fn the_loop_ends_when_the_last_window_is_closed() {
    let mut app = TestApp::new(vec![scene(false, true)], manager());
    app.create_window(window(1, 0));
    app.create_window(window(2, 0));
    assert!(!app.should_close());
    app.run(Input::Done);
    app.run(Input::QueueEmpty { should_close: true });
    let released = app.run(Input::QueueEmpty { should_close: true });
    let handles: Vec<u32> = released
        .iter()
        .map(|a| match a {
            Action::Destroy { closed } => closed.handle,
            other => panic!("expected a release, got {:?}", other),
        })
        .collect();
    assert_eq!(handles, vec![1, 2]);
    assert_eq!(app.window_count(), 0);
    assert_eq!(app.phase(), Phase::PollEvents);
    assert!(app.should_close());
    assert_eq!(app.run(Input::Done), vec![Action::Exit]);
}

#[test]
fn register_scene_returns_the_next_index() {
    let mut app = TestApp::new(vec![], manager());
    assert_eq!(app.scene_count(), 0);
    assert_eq!(app.register_scene(scene(false, false)), 0);
    assert_eq!(app.register_scene(scene(true, false)), 1);
    assert_eq!(app.register_scene(scene(false, true)), 2);
    assert_eq!(app.scene_count(), 3);
    assert!(app.scene(1).unwrap().listener().on_event.is_some());
    assert!(app.scene(2).unwrap().listener().on_update.is_some());
    assert!(app.scene(3).is_none());
}

#[test]
fn create_window_makes_it_current_and_polls_its_events() {
    let mut app = TestApp::new(vec![], manager());
    assert_eq!(
        app.create_window(window(1, 0)),
        vec![perform(0, Command::MakeCurrent), perform(0, Command::SetAllPolling { poll: true })]
    );
    assert_eq!(
        app.create_window(window(2, 0)),
        vec![perform(1, Command::MakeCurrent), perform(1, Command::SetAllPolling { poll: true })]
    );
    assert_eq!(app.window_count(), 2);
    assert_eq!(app.window(1).unwrap().handle, 2);
    assert!(app.window(2).is_none());
    assert_eq!(app.object_manager().len(), 2);
}

#[test]
fn window_hints_ask_for_the_core_profile_of_version_4_6() {
    let base = vec![
        WindowHint::ContextVersionMajor(4),
        WindowHint::ContextVersionMinor(6),
        WindowHint::OpenGlCoreProfile,
    ];
    assert_eq!(TestApp::window_hints(false, false), base);
    let mut forward = base.clone();
    forward.push(WindowHint::OpenGlForwardCompat(true));
    assert_eq!(TestApp::window_hints(true, false), forward);
    let mut debug = base.clone();
    debug.push(WindowHint::OpenGlDebugContext(true));
    assert_eq!(TestApp::window_hints(false, true), debug);
    forward.push(WindowHint::OpenGlDebugContext(true));
    assert_eq!(TestApp::window_hints(true, true), forward);
}

#[test]
fn updates_are_handed_the_time_that_the_tick_began_with() {
    let mut app = TestApp::new(vec![scene(false, true)], manager());
    app.create_window(window(1, 0));
    assert_eq!(app.delta(), 0);
    let deltas = |actions: &[Action<u32>]| -> Vec<u64> {
        actions
            .iter()
            .filter_map(|a| match a {
                Action::InvokeOnUpdate { delta, .. } => Some(*delta),
                _ => None,
            })
            .collect()
    };
    assert_eq!(deltas(&quiet_tick(&mut app)), vec![16_000_000]);
    // a tick that is told no time keeps the time of the tick before
    let mut actions = app.run(Input::Done);
    actions.extend(app.run(Input::QueueEmpty { should_close: false }));
    actions.extend(app.run(Input::Done));
    assert_eq!(deltas(&actions), vec![16_000_000]);
    app.run(Input::Done);
    app.run(Input::Done);
    assert_eq!(app.phase(), Phase::PollEvents);
    app.run(Input::Tick { elapsed: u64::MAX });
    app.run(Input::QueueEmpty { should_close: false });
    assert_eq!(deltas(&app.run(Input::Tick { elapsed: 1 })), vec![u64::MAX]);
}

#[test]
fn an_input_that_is_no_event_ends_the_queue_of_a_window() {
    let mut app = TestApp::new(vec![scene(true, true)], manager());
    app.create_window(window(1, 0));
    app.create_window(window(2, 0));
    app.run(Input::Done);
    assert_eq!(app.run(Input::Done), vec![Action::TakeEvent { window: 1 }]);
    assert_eq!(app.run(Input::Tick { elapsed: 9 }), vec![]);
    assert_eq!(app.phase(), Phase::Update { window: 0 });
    assert_eq!(app.delta(), 0);
}
