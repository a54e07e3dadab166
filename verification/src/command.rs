//! The requests that this crate hands to the outside.
//!
//! A [`Command`] names one thing for the graphics driver or the windowing
//! system to do. The crate decides which commands are due and in which order;
//! whoever holds the driver carries them out. A command that asks a question
//! (see [`Command::expects`]) is answered with a [`Reply`].

use vstd::prelude::*;
use crate::words::{Mat4, QuaternionWords, Vec3, Vec4};

verus! {

/// The pipeline stage that a shader is written for.
#[derive(Clone, Copy, Debug, PartialEq, Eq, Structural)]
pub enum ShaderType {
    Vert,
    Frag,
    Compute,
}

/// The binding point of a buffer.
#[derive(Clone, Copy, Debug, PartialEq, Eq, Structural)]
pub enum BufferType {
    Array,
    ElementArray,
}

/// How often the data of a buffer is expected to change.
#[derive(Clone, Copy, Debug, PartialEq, Eq, Structural)]
pub enum BufferUsage {
    StaticDraw,
}

/// The part of a mesh that a buffer upload takes its bytes from.
#[derive(Clone, Copy, Debug, PartialEq, Eq, Structural)]
pub enum MeshPart {
    Vertices,
    Indices,
}

/// How the cursor behaves over a window.
#[derive(Clone, Copy, Debug, PartialEq, Eq, Structural)]
pub enum CursorMode {
    Normal,
    Hidden,
    Disabled,
}

/// The named inputs of the shader program.
#[derive(Clone, Copy, Debug, PartialEq, Eq, Structural)]
pub enum Uniform {
    CamView,
    CamProjection,
    CamOrientation,
    ObjPosition,
    ObjScale,
    ObjRotation,
    Color,
}

impl Uniform {
    /// The name under which the shader program declares this input.
    pub open spec fn spec_name(self) -> Seq<char> {
        match self {
            Uniform::CamView => "cam_view"@,
            Uniform::CamProjection => "cam_projection"@,
            Uniform::CamOrientation => "cam_orientation"@,
            Uniform::ObjPosition => "obj_position"@,
            Uniform::ObjScale => "obj_scale"@,
            Uniform::ObjRotation => "obj_rotation"@,
            Uniform::Color => "color"@,
        }
    }

    /// The name under which the shader program declares this input.
    pub fn name(&self) -> (s: &'static str)
        ensures
            s@ == self.spec_name(),
    {
        match self {
            Uniform::CamView => "cam_view",
            Uniform::CamProjection => "cam_projection",
            Uniform::CamOrientation => "cam_orientation",
            Uniform::ObjPosition => "obj_position",
            Uniform::ObjScale => "obj_scale",
            Uniform::ObjRotation => "obj_rotation",
            Uniform::Color => "color",
        }
    }
}

/// What kind of answer a command waits for.
#[derive(Clone, Copy, Debug, PartialEq, Eq, Structural)]
pub enum ReplyKind {
    /// The command asks nothing.
    Nothing,
    /// The handle of a freshly created resource, zero where none was created.
    Handle,
    /// A status flag of a shader or a program.
    Status,
    /// The diagnostic text that the driver kept for a shader or a program.
    Log,
}

/// One request to the graphics driver or to the windowing system.
#[derive(Clone, Copy, Debug, PartialEq, Eq)]
#[allow(inconsistent_fields)]
pub enum Command {
    /// Create an empty shader of the given stage.
    CreateShader(ShaderType),
    /// Hand the shader the source text that the build at hand keeps for
    /// `stage`.
    ShaderSource { shader: u32, stage: ShaderType },
    /// Compile the shader.
    CompileShader { shader: u32 },
    /// Ask whether the last compilation of the shader succeeded.
    GetCompileStatus { shader: u32 },
    /// Ask for the diagnostic text of the shader.
    GetShaderInfoLog { shader: u32 },
    /// Release the shader.
    DeleteShader { shader: u32 },
    /// Create an empty program.
    CreateProgram,
    /// Attach a compiled shader to the program.
    AttachShader { program: u32, shader: u32 },
    /// Link the program.
    LinkProgram { program: u32 },
    /// Ask whether the last link of the program succeeded.
    GetLinkStatus { program: u32 },
    /// Ask for the diagnostic text of the program.
    GetProgramInfoLog { program: u32 },
    /// Make the program the one that draws.
    UseProgram { program: u32 },
    /// Release the program.
    DeleteProgram { program: u32 },
    /// Create a vertex array.
    GenVertexArray,
    /// Bind a vertex array; zero clears the binding.
    BindVertexArray { array: u32 },
    /// Create a buffer.
    GenBuffer,
    /// Bind a buffer to a binding point; zero clears the binding.
    BindBuffer { target: BufferType, buffer: u32 },
    /// Fill the buffer bound to `target` with the bytes of one part of the
    /// mesh that is being registered.
    BufferData { target: BufferType, part: MeshPart, usage: BufferUsage },
    /// Describe attribute `index` of the bound vertex buffer: `size`
    /// single-precision values per vertex, `stride` bytes from one vertex to
    /// the next, starting at the head of the buffer.
    VertexAttribPointer { index: u32, size: i32, stride: i32 },
    /// Switch attribute `index` on.
    EnableVertexAttribArray { index: u32 },
    /// Switch depth testing on.
    EnableDepthTest,
    /// Set the drawable area of the current window.
    Viewport { x: i32, y: i32, width: i32, height: i32 },
    /// Set the colour that a clear fills the frame with.
    ClearColor { color: Vec4 },
    /// Clear the colour and the depth of the frame.
    Clear,
    /// Set a matrix input of the program in use.
    UniformMatrix { uniform: Uniform, matrix: Mat4 },
    /// Set a matrix input of the program in use to the rotation that the
    /// quaternion stands for.
    UniformRotation { uniform: Uniform, quaternion: QuaternionWords },
    /// Set a three-component input of the program in use.
    UniformVec3 { uniform: Uniform, value: Vec3 },
    /// Set a four-component input of the program in use.
    UniformVec4 { uniform: Uniform, value: Vec4 },
    /// Draw `count` indices of the bound vertex array as a list of triangles.
    DrawElements { count: i32 },
    /// Make the graphics context of the window the current one.
    MakeCurrent,
    /// Present the frame of the window.
    SwapBuffers,
    /// Wait for this many screen refreshes between two presented frames.
    SetSwapInterval { interval: u32 },
    /// Raise or lower the flag that asks the window to close.
    SetShouldClose { value: bool },
    /// Switch the delivery of every kind of event on or off.
    SetAllPolling { poll: bool },
    /// Change how the cursor behaves over the window.
    SetCursorMode { mode: CursorMode },
}

impl Command {
    /// The kind of answer that this command waits for.
    pub open spec fn spec_expects(self) -> ReplyKind {
        match self {
            Command::CreateShader(_) => ReplyKind::Handle,
            Command::CreateProgram => ReplyKind::Handle,
            Command::GenVertexArray => ReplyKind::Handle,
            Command::GenBuffer => ReplyKind::Handle,
            Command::GetCompileStatus { .. } => ReplyKind::Status,
            Command::GetLinkStatus { .. } => ReplyKind::Status,
            Command::GetShaderInfoLog { .. } => ReplyKind::Log,
            Command::GetProgramInfoLog { .. } => ReplyKind::Log,
            _ => ReplyKind::Nothing,
        }
    }

    /// The kind of answer that this command waits for.
    pub fn expects(&self) -> (kind: ReplyKind)
        ensures
            kind == self.spec_expects(),
    {
        match self {
            Command::CreateShader(_) => ReplyKind::Handle,
            Command::CreateProgram => ReplyKind::Handle,
            Command::GenVertexArray => ReplyKind::Handle,
            Command::GenBuffer => ReplyKind::Handle,
            Command::GetCompileStatus { .. } => ReplyKind::Status,
            Command::GetLinkStatus { .. } => ReplyKind::Status,
            Command::GetShaderInfoLog { .. } => ReplyKind::Log,
            Command::GetProgramInfoLog { .. } => ReplyKind::Log,
            _ => ReplyKind::Nothing,
        }
    }
}

/// The answer of the graphics driver to a command that asks a question.
#[derive(Debug, PartialEq, Eq)]
pub enum Reply {
    /// The handle of a freshly created resource, zero where none was created.
    Handle(u32),
    /// A status flag: one for success.
    Status(i32),
    /// Diagnostic text.
    Log(String),
}

/// A [`Reply`] with its text as a sequence of characters.
pub enum ReplyView {
    Handle(u32),
    Status(i32),
    Log(Seq<char>),
}

impl View for Reply {
    type V = ReplyView;

    open spec fn view(&self) -> ReplyView {
        match *self {
            Reply::Handle(handle) => ReplyView::Handle(handle),
            Reply::Status(status) => ReplyView::Status(status),
            Reply::Log(text) => ReplyView::Log(text@),
        }
    }
}

/// The status that the driver reports for success.
pub const STATUS_TRUE: i32 = 1;

/// The text that the bytes stand for when read as UTF-8, with the
/// replacement character in place of every malformed part.
pub uninterp spec fn utf8_lossy(bytes: Seq<u8>) -> Seq<char>;

/// Reads bytes as text.
///
/// Calls `String::from_utf8_lossy`, which decodes UTF-8 and puts the
/// replacement character where the bytes are malformed, and takes the result
/// as an owned string. Bytes that are well-formed UTF-8 come out as the text
/// that they encode.
#[verifier::external_body]
pub(crate) fn decode_lossy(bytes: &[u8]) -> (text: String)
    ensures
        text@ == utf8_lossy(bytes@),
        vstd::utf8::valid_utf8(bytes@) ==> text@ == vstd::utf8::decode_utf8(bytes@),
{
    String::from_utf8_lossy(bytes).into_owned()
}

impl Reply {
    /// The reply that carries the diagnostic text which the driver wrote as
    /// `written`.
    pub fn log(written: &[u8]) -> (reply: Reply)
        ensures
            reply@ == ReplyView::Log(utf8_lossy(written@)),
            vstd::utf8::valid_utf8(written@) ==> reply@ == ReplyView::Log(
                vstd::utf8::decode_utf8(written@),
            ),
    {
        Reply::Log(decode_lossy(written))
    }
}

} // verus!
