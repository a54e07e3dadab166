//! Windows: what each one does with an event, an update and a frame.

use vstd::prelude::*;
use crate::command::{Command, CursorMode};
use crate::error::Error;
use crate::object::{ObjectManager, ObjectTypeView};
use crate::scene::{render_commands, Scene, SceneView};
use crate::shader::ShaderProgram;

verus! {

/// What a window is opened with.
#[derive(Debug, PartialEq, Eq)]
pub struct WindowOptions {
    pub width: usize,
    pub height: usize,
    /// The index of the scene that the window shows.
    pub scene: usize,
    pub title: String,
}

impl WindowOptions {
    /// The width and the height as the windowing system takes them, or
    /// nothing where one of them does not fit 32 bits.
    pub fn dimensions(&self) -> (size: Option<(u32, u32)>)
        ensures
            size == (if self.width <= u32::MAX && self.height <= u32::MAX {
                Some((self.width as u32, self.height as u32))
            } else {
                None
            }),
    {
        if self.width <= u32::MAX as usize && self.height <= u32::MAX as usize {
            Some((self.width as u32, self.height as u32))
        } else {
            None
        }
    }
}

/// An event of a window, as far as this crate tells events apart.
#[derive(Clone, Copy, Debug, PartialEq, Eq)]
pub enum WindowEvent {
    /// The user asked the window to close.
    Close,
    /// The window has a new size, in screen coordinates.
    Size(i32, i32),
    /// Any other event: a key, a mouse button, a move of the cursor.
    Other,
}

/// An open window. It shows the scene whose index its options name, draws
/// with its own program, and keeps the platform's window as `handle`.
#[derive(Debug, PartialEq, Eq)]
pub struct Window<H> {
    pub opts: WindowOptions,
    pub handle: H,
    pub shader: ShaderProgram,
    /// Whether the window has been asked to close, as last set or observed.
    pub should_close: bool,
}

/// The scenes of a list, each as its view.
pub open spec fn scene_views<E, U>(scenes: Seq<Scene<E, U>>) -> Seq<SceneView<E, U>> {
    Seq::new(scenes.len(), |i: int| scenes[i]@)
}

impl<H> Window<H> {
    /// The commands that prepare the graphics context of a fresh window:
    /// switch depth testing on and present frames without waiting for the
    /// screen.
    pub open spec fn setup_commands() -> Seq<Command> {
        seq![Command::EnableDepthTest, Command::SetSwapInterval { interval: 0 }]
    }

    /// Whether the window shows one of `scene_count` scenes. A window that
    /// does not is passed over for the whole tick.
    pub open spec fn bound(self, scene_count: nat) -> bool {
        self.opts.scene < scene_count
    }

    /// The window with its flag for closing set to `value`.
    pub open spec fn with_should_close(self, value: bool) -> Self {
        Window { should_close: value, ..self }
    }

    /// The commands that an event asks for before it reaches the callback: a
    /// request to close raises the flag for closing, and a new size becomes
    /// the drawable area.
    pub open spec fn event_commands(event: WindowEvent) -> Seq<Command> {
        match event {
            WindowEvent::Close => seq![Command::SetShouldClose { value: true }],
            WindowEvent::Size(width, height) => seq![
                Command::Viewport { x: 0, y: 0, width, height },
            ],
            WindowEvent::Other => Seq::empty(),
        }
    }

    /// The window after an event: flagged for closing by a request to
    /// close, unchanged by anything else or where it shows no scene.
    pub open spec fn after_event(self, scene_count: nat, event: WindowEvent) -> Self {
        if self.bound(scene_count) && event is Close {
            self.with_should_close(true)
        } else {
            self
        }
    }

    /// The commands due for an event: those of [`Self::event_commands`], or
    /// none where the window shows no scene.
    pub open spec fn dispatch_commands(self, scene_count: nat, event: WindowEvent) -> Seq<
        Command,
    > {
        if self.bound(scene_count) {
            Self::event_commands(event)
        } else {
            Seq::empty()
        }
    }

    /// The scene whose callback for events is due when the window gets an
    /// event: the scene that the window shows, if there is such a scene and
    /// it has that callback.
    pub open spec fn event_target<E, U>(self, scenes: Seq<SceneView<E, U>>) -> Option<usize> {
        if self.bound(scenes.len()) && scenes[self.opts.scene as int].listener.on_event is Some {
            Some(self.opts.scene)
        } else {
            None
        }
    }

    /// The scene whose callback for updates is due in the update of the
    /// window: the scene that the window shows, if there is such a scene and
    /// it has that callback.
    pub open spec fn update_target<E, U>(self, scenes: Seq<SceneView<E, U>>) -> Option<usize> {
        if self.bound(scenes.len()) && scenes[self.opts.scene as int].listener.on_update is Some {
            Some(self.opts.scene)
        } else {
            None
        }
    }

    /// The commands that draw a frame of `scene` into the window: make its
    /// context current, use its program, hand over the camera, apply the
    /// clear colour if it is dirty, clear, and draw the instances.
    pub open spec fn scene_commands<E, U>(
        self,
        scene: SceneView<E, U>,
        registry: Seq<ObjectTypeView>,
    ) -> Seq<Command> {
        seq![Command::MakeCurrent, Command::UseProgram { program: self.shader.0 }]
            + scene.camera.commands() + scene.clear_color_commands() + seq![Command::Clear]
            + render_commands(scene.objects, registry)
    }

    /// The commands that draw a frame into the window: those of
    /// [`Self::scene_commands`] for the scene that the window shows, or none
    /// where it shows no scene.
    pub open spec fn frame_commands<E, U>(
        self,
        scenes: Seq<SceneView<E, U>>,
        registry: Seq<ObjectTypeView>,
    ) -> Seq<Command> {
        if self.bound(scenes.len()) {
            self.scene_commands(scenes[self.opts.scene as int], registry)
        } else {
            Seq::empty()
        }
    }

    /// The scenes after a frame of the window: the clear colour of the scene
    /// that it shows is clean, and nothing else has changed.
    pub open spec fn after_frame<E, U>(self, scenes: Seq<SceneView<E, U>>) -> Seq<
        SceneView<E, U>,
    > {
        if self.bound(scenes.len()) {
            scenes.update(self.opts.scene as int, scenes[self.opts.scene as int].cleaned())
        } else {
            scenes
        }
    }

    /// The commands that present the frame of the window: one swap, or none
    /// where the window shows no scene and so has no frame.
    pub open spec fn present_commands(self, scene_count: nat) -> Seq<Command> {
        if self.bound(scene_count) {
            seq![Command::SwapBuffers]
        } else {
            Seq::empty()
        }
    }

    /// A window over a platform window that has just been created, with the
    /// program that it draws with, and the commands that prepare its
    /// graphics context.
    pub fn new(opts: WindowOptions, handle: H, shader: ShaderProgram) -> (r: (Self, Vec<Command>))
        ensures
            r.0 == (Window { opts, handle, shader, should_close: false }),
            r.1@ == Self::setup_commands(),
    {
        let mut commands: Vec<Command> = Vec::new();
        commands.push(Command::EnableDepthTest);
        commands.push(Command::SetSwapInterval { interval: 0 });
        (Window { opts, handle, shader, should_close: false }, commands)
    }

    /// The index of the scene that the window shows, or the error that it
    /// is out of range where there are no more than `scene_count` scenes.
    pub fn bound_scene(&self, scene_count: usize) -> (scene: Result<usize, Error>)
        ensures
            scene == (if self.bound(scene_count as nat) {
                Ok::<usize, Error>(self.opts.scene)
            } else {
                Err::<usize, Error>(Error::IndexOutOfRange)
            }),
    {
        if self.opts.scene >= scene_count {
            return Err(Error::IndexOutOfRange);
        }
        Ok(self.opts.scene)
    }

    /// Takes one event from the queue of the window. Returns the commands
    /// that the event asks for and, after them, the scene whose callback for
    /// events is to get the event. A window that shows no scene drops the
    /// event.
    pub fn poll_events<E, U>(&mut self, scenes: &Vec<Scene<E, U>>, event: WindowEvent) -> (r: (
        Vec<Command>,
        Option<usize>,
    ))
        ensures
            r.0@ == old(self).dispatch_commands(scenes@.len(), event),
            r.1 == old(self).event_target(scene_views(scenes@)),
            *final(self) == old(self).after_event(scenes@.len(), event),
    {
        let mut commands: Vec<Command> = Vec::new();
        let index = match self.bound_scene(scenes.len()) {
            Ok(index) => index,
            Err(_) => {
                return (commands, None);
            },
        };
        match event {
            WindowEvent::Close => {
                commands.push(self.set_should_close(true));
            },
            WindowEvent::Size(width, height) => {
                commands.push(Command::Viewport { x: 0, y: 0, width, height });
            },
            WindowEvent::Other => {},
        }
        let forward = if scenes[index].listener().on_event.is_some() {
            Some(index)
        } else {
            None
        };
        (commands, forward)
    }

    /// The scene whose callback for updates is due now, if any.
    pub fn update<E, U>(&self, scenes: &Vec<Scene<E, U>>) -> (target: Option<usize>)
        ensures
            target == self.update_target(scene_views(scenes@)),
    {
        let index = match self.bound_scene(scenes.len()) {
            Ok(index) => index,
            Err(_) => {
                return None;
            },
        };
        if scenes[index].listener().on_update.is_none() {
            return None;
        }
        Some(index)
    }

    /// The commands that draw a frame into the window. The clear colour of
    /// the scene that the window shows is clean afterwards.
    pub fn render<E, U>(&self, scenes: &mut Vec<Scene<E, U>>, object_manager: &ObjectManager) -> (commands:
        Vec<Command>)
        ensures
            commands@ == self.frame_commands(scene_views(old(scenes)@), object_manager@),
            scene_views(final(scenes)@) == self.after_frame(scene_views(old(scenes)@)),
    {
        let mut commands: Vec<Command> = Vec::new();
        let index = match self.bound_scene(scenes.len()) {
            Ok(index) => index,
            Err(_) => {
                assert(scene_views(scenes@) =~= self.after_frame(scene_views(old(scenes)@)));
                return commands;
            },
        };
        commands.push(self.make_current());
        commands.push(self.shader.use_program());
        let mut camera = self.send_camera_info(&scenes[index].camera());
        commands.append(&mut camera);
        let mut color = scenes[index].apply_clear_color();
        commands.append(&mut color);
        commands.push(Command::Clear);
        let mut draws = scenes[index].render(object_manager);
        commands.append(&mut draws);
        assert(scene_views(scenes@) =~= self.after_frame(scene_views(old(scenes)@)));
        assert(commands@ =~= self.frame_commands(scene_views(old(scenes)@), object_manager@));
        commands
    }

    /// The commands that present the frame of the window.
    pub fn present(&self, scene_count: usize) -> (commands: Vec<Command>)
        ensures
            commands@ == self.present_commands(scene_count as nat),
    {
        let mut commands: Vec<Command> = Vec::new();
        if self.bound_scene(scene_count).is_ok() {
            commands.push(Command::SwapBuffers);
        }
        commands
    }

    /// The commands that hand a camera to the program in use.
    pub fn send_camera_info(&self, camera: &crate::camera::Camera) -> (commands: Vec<Command>)
        ensures
            commands@ == camera.commands(),
    {
        let mut commands: Vec<Command> = Vec::new();
        commands.push(
            Command::UniformMatrix { uniform: crate::command::Uniform::CamView, matrix: camera.view },
        );
        commands.push(
            Command::UniformMatrix {
                uniform: crate::command::Uniform::CamProjection,
                matrix: camera.projection,
            },
        );
        commands.push(
            Command::UniformRotation {
                uniform: crate::command::Uniform::CamOrientation,
                quaternion: camera.orientation,
            },
        );
        commands
    }

    /// Whether the window has been asked to close.
    pub fn should_close(&self) -> (flag: bool)
        ensures
            flag == self.should_close,
    {
        self.should_close
    }

    /// Sets the flag for closing, and returns the command that tells the
    /// windowing system.
    pub fn set_should_close(&mut self, value: bool) -> (command: Command)
        ensures
            *final(self) == old(self).with_should_close(value),
            command == (Command::SetShouldClose { value }),
    {
        self.should_close = value;
        Command::SetShouldClose { value }
    }

    /// The command that makes the graphics context of the window current.
    pub fn make_current(&self) -> (command: Command)
        ensures
            command == Command::MakeCurrent,
    {
        Command::MakeCurrent
    }

    /// The command that switches the delivery of all kinds of events on or
    /// off.
    pub fn set_all_polling(&self, poll: bool) -> (command: Command)
        ensures
            command == (Command::SetAllPolling { poll }),
    {
        Command::SetAllPolling { poll }
    }

    /// The command that changes how the cursor behaves over the window.
    pub fn set_cursor_mode(&self, mode: CursorMode) -> (command: Command)
        ensures
            command == (Command::SetCursorMode { mode }),
    {
        Command::SetCursorMode { mode }
    }

    /// Gives the window up and hands back the platform's window, for its
    /// holder to release.
    pub fn destroy(self) -> (handle: H)
        ensures
            handle == self.handle,
    {
        self.handle
    }
}

} // verus!
