//! The core of a small real-time 3D rendering framework.
//!
//! The crate keeps a registry of mesh types, places instances of them into
//! scenes, and schedules the poll, dispatch, update, render and present steps
//! of every open window. It never talks to a windowing system or a graphics
//! driver itself: every function that wants something done outside returns
//! the requests as plain values, and takes the answers as arguments.
//!
//! - [`app`] holds the loop: one step at a time, from what the outside
//!   reports to what it is to do next. [`laws`] states what holds of whole
//!   ticks.
//! - [`window`] and [`scene`] say what a window does with an event, an update
//!   and a frame, and which commands draw a scene.
//! - [`object`] is the registry of mesh types, with the two built-in meshes.
//! - [`buffer`] and [`shader`] build driver resources from the answers of the
//!   driver, step by step.
//! - [`command`] is the vocabulary of requests and answers, [`error`] the
//!   list of what can go wrong.
//! - [`words`] explains how single-precision numbers pass through.
//! - [`controls`] maps keys and the mouse to moves of a camera.

pub mod app;
pub mod buffer;
pub mod camera;
pub mod command;
pub mod context;
pub mod controls;
pub mod error;
pub mod laws;
pub mod listener;
pub mod object;
pub mod scene;
pub mod shader;
pub mod window;
pub mod words;

pub use app::{Action, App, AppView, Input, Phase, WindowHint};
pub use buffer::{Buffer, BufferSetup, ObjectInformation, SetupStage, VertexArray};
pub use camera::Camera;
pub use command::{
    BufferType, BufferUsage, Command, CursorMode, MeshPart, Reply, ReplyKind, ReplyView, ShaderType,
    Uniform,
};
pub use context::Context;
pub use controls::{ControlEvent, Controls, Direction, FrameCounter, Key, KeyAction, Response};
pub use error::{Error, ErrorView, Resource};
pub use listener::Listener;
pub use object::{
    cube_mesh, sphere_mesh, Object, ObjectManager, ObjectType, ObjectTypeView, Primitive,
};
pub use scene::{Scene, SceneView};
pub use shader::{CompileStage, LinkStage, ProgramBuild, Shader, ShaderBuild, ShaderProgram};
pub use window::{Window, WindowEvent, WindowOptions};
pub use words::{flatten, Mat4, QuaternionWords, TriangleIndices, Vec3, Vec4, Vertex};
