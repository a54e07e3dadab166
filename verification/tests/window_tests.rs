use tiny_render::{
    flatten, Camera, Command, Context, CursorMode, Listener, Scene, ShaderProgram, Uniform, Window,
    WindowEvent, WindowOptions,
};

fn camera() -> Camera {
    Camera { view: [[1; 4]; 4], projection: [[2; 4]; 4], orientation: [3; 4], position: [4; 3] }
}

fn options(width: usize, height: usize, scene: usize) -> WindowOptions {
    WindowOptions { width, height, scene, title: String::from("test #1") }
}

fn window(scene: usize) -> Window<&'static str> {
    Window::new(options(800, 600, scene), "handle", ShaderProgram(7)).0
}

#[test]
fn dimensions_fit_32_bits_or_are_nothing() {
    assert_eq!(options(800, 600, 0).dimensions(), Some((800, 600)));
    assert_eq!(options(0, 0, 0).dimensions(), Some((0, 0)));
    assert_eq!(
        options(u32::MAX as usize, u32::MAX as usize, 0).dimensions(),
        Some((u32::MAX, u32::MAX))
    );
    if usize::BITS > 32 {
        let wide = u32::MAX as usize + 1;
        assert_eq!(options(wide, 600, 0).dimensions(), None);
        assert_eq!(options(800, wide, 0).dimensions(), None);
        assert_eq!(options(usize::MAX, usize::MAX, 0).dimensions(), None);
    }
}

#[test]
fn a_new_window_is_open_and_prepares_its_context() {
    let (window, commands) = Window::new(options(800, 600, 2), 5u8, ShaderProgram(9));
    assert_eq!(window.opts, options(800, 600, 2));
    assert_eq!(window.handle, 5);
    assert_eq!(window.shader, ShaderProgram(9));
    assert!(!window.should_close());
    assert_eq!(
        commands,
        vec![Command::EnableDepthTest, Command::SetSwapInterval { interval: 0 }]
    );
}

#[test]
fn window_commands() {
    let mut window = window(0);
    assert_eq!(window.make_current(), Command::MakeCurrent);
    assert_eq!(window.set_all_polling(true), Command::SetAllPolling { poll: true });
    assert_eq!(window.set_all_polling(false), Command::SetAllPolling { poll: false });
    assert_eq!(
        window.set_cursor_mode(CursorMode::Disabled),
        Command::SetCursorMode { mode: CursorMode::Disabled }
    );
    assert_eq!(window.set_should_close(true), Command::SetShouldClose { value: true });
    assert!(window.should_close());
    assert_eq!(window.set_should_close(false), Command::SetShouldClose { value: false });
    assert!(!window.should_close());
    assert_eq!(window.destroy(), "handle");
}

#[test]
fn poll_events_handles_one_event() {
    let mut with_callback: Scene<u8, u8> = Scene::new(camera());
    with_callback.listener_mut().attach_on_event(1);
    let scenes: Vec<Scene<u8, u8>> = vec![Scene::new(camera()), with_callback];

    let mut window = window(1);
    assert_eq!(window.poll_events(&scenes, WindowEvent::Other), (vec![], Some(1)));
    assert_eq!(
        window.poll_events(&scenes, WindowEvent::Size(10, 20)),
        (vec![Command::Viewport { x: 0, y: 0, width: 10, height: 20 }], Some(1))
    );
    assert!(!window.should_close());
    assert_eq!(
        window.poll_events(&scenes, WindowEvent::Close),
        (vec![Command::SetShouldClose { value: true }], Some(1))
    );
    assert!(window.should_close());

    let mut silent = self::window(0);
    assert_eq!(silent.poll_events(&scenes, WindowEvent::Other), (vec![], None));
    assert_eq!(
        silent.poll_events(&scenes, WindowEvent::Close),
        (vec![Command::SetShouldClose { value: true }], None)
    );

    let mut unbound = self::window(2);
    assert_eq!(unbound.poll_events(&scenes, WindowEvent::Close), (vec![], None));
    assert_eq!(unbound.poll_events(&scenes, WindowEvent::Size(1, 1)), (vec![], None));
    assert!(!unbound.should_close());
}

#[test]
fn update_names_the_scene_with_a_callback() {
    let mut with_callback: Scene<u8, u8> = Scene::new(camera());
    with_callback.listener_mut().attach_on_update(1);
    let scenes: Vec<Scene<u8, u8>> = vec![Scene::new(camera()), with_callback];
    assert_eq!(window(0).update(&scenes), None);
    assert_eq!(window(1).update(&scenes), Some(1));
    assert_eq!(window(2).update(&scenes), None);
    assert_eq!(window(usize::MAX).update(&scenes), None);
}

#[test]
fn present_swaps_where_there_is_a_frame() {
    assert_eq!(window(0).present(1), vec![Command::SwapBuffers]);
    assert_eq!(window(1).present(1), vec![]);
    assert_eq!(window(0).present(0), vec![]);
}

#[test]
fn send_camera_info_hands_over_three_inputs() {
    let camera = camera();
    assert_eq!(
        window(0).send_camera_info(&camera),
        vec![
            Command::UniformMatrix { uniform: Uniform::CamView, matrix: [[1; 4]; 4] },
            Command::UniformMatrix { uniform: Uniform::CamProjection, matrix: [[2; 4]; 4] },
            Command::UniformRotation { uniform: Uniform::CamOrientation, quaternion: [3; 4] },
        ]
    );
}

#[test]
fn uniforms_have_the_names_of_the_program() {
    assert_eq!(Uniform::CamView.name(), "cam_view");
    assert_eq!(Uniform::CamProjection.name(), "cam_projection");
    assert_eq!(Uniform::CamOrientation.name(), "cam_orientation");
    assert_eq!(Uniform::ObjPosition.name(), "obj_position");
    assert_eq!(Uniform::ObjScale.name(), "obj_scale");
    assert_eq!(Uniform::ObjRotation.name(), "obj_rotation");
    assert_eq!(Uniform::Color.name(), "color");
}

#[test]
fn flatten_goes_column_by_column() {
    let mat = [[0, 1, 2, 3], [4, 5, 6, 7], [8, 9, 10, 11], [12, 13, 14, 15]];
    assert_eq!(flatten(&mat), (0..16).collect::<Vec<i32>>());
    let floats = [[0.5f32; 4], [1.5; 4], [2.5; 4], [3.5; 4]];
    let flat = flatten(&floats);
    assert_eq!(flat.len(), 16);
    assert_eq!(flat[3], 0.5);
    assert_eq!(flat[4], 1.5);
    assert_eq!(flat[15], 3.5);
}

#[test]
fn listener_starts_empty_and_keeps_the_last_callback() {
    let mut listener: Listener<u8, &str> = Listener::new();
    assert_eq!(listener, Listener { on_event: None, on_update: None });
    assert_eq!(Listener::<u8, &str>::default(), listener);
    listener.attach_on_event(1).attach_on_update("a");
    assert_eq!(listener, Listener { on_event: Some(1), on_update: Some("a") });
    listener.attach_on_event(2);
    assert_eq!(listener, Listener { on_event: Some(2), on_update: Some("a") });
}

#[test]
fn context_hands_out_the_current_scene() {
    let mut second: Scene<(), ()> = Scene::new(camera());
    second.add_object(1, [0; 3], [0; 3], [0; 4], [0; 4]);
    let mut context =
        Context { current_scene: 1, scenes: vec![Scene::new(camera()), second], camera: camera(), window: 0u8 };
    assert!(context.is_valid());
    assert_eq!(context.current().objects().len(), 1);
    context.current_mut().set_clear_color(1, 2, 3, 4);
    assert!(context.scenes[1].clear_color_dirty());
    assert!(!context.scenes[0].clear_color_dirty());
    context.current_scene = 0;
    assert_eq!(context.current().objects().len(), 0);
    context.current_scene = 2;
    assert!(!context.is_valid());
}

#[test]
fn a_window_shows_a_scene_or_is_out_of_range() {
    assert_eq!(window(0).bound_scene(1), Ok(0));
    assert_eq!(window(4).bound_scene(5), Ok(4));
    assert_eq!(window(0).bound_scene(0), Err(tiny_render::Error::IndexOutOfRange));
    assert_eq!(window(5).bound_scene(5), Err(tiny_render::Error::IndexOutOfRange));
    assert_eq!(window(usize::MAX).bound_scene(usize::MAX), Err(tiny_render::Error::IndexOutOfRange));
}
