//! Vertex arrays, buffers, and the creation of the driver resources of a mesh.

use vstd::prelude::*;
use crate::command::{BufferType, BufferUsage, Command, MeshPart};
use crate::error::{Error, Resource};
use crate::words::{TriangleIndices, Vertex};

verus! {

/// A vertex array of the driver, by its handle.
#[derive(Clone, Copy, Debug, PartialEq, Eq)]
pub struct VertexArray(pub u32);

/// A buffer of the driver, by its handle and the point it binds to.
#[derive(Clone, Copy, Debug, PartialEq, Eq)]
pub struct Buffer {
    pub bo: u32,
    pub ty: BufferType,
}

impl VertexArray {
    /// Takes the driver's answer to [`Command::GenVertexArray`]: a vertex
    /// array, unless the handle is null.
    pub fn new(handle: u32) -> (array: Option<Self>)
        ensures
            array == (if handle == 0 { None } else { Some(VertexArray(handle)) }),
    {
        if handle == 0 {
            return None;
        }
        Some(VertexArray(handle))
    }

    /// The command that binds this vertex array.
    pub fn bind(&self) -> (command: Command)
        ensures
            command == (Command::BindVertexArray { array: self.0 }),
    {
        Command::BindVertexArray { array: self.0 }
    }

    /// The command after which no vertex array is bound.
    pub fn clear_binding() -> (command: Command)
        ensures
            command == (Command::BindVertexArray { array: 0 }),
    {
        Command::BindVertexArray { array: 0 }
    }
}

impl Buffer {
    /// Takes the driver's answer to [`Command::GenBuffer`]: a buffer for the
    /// binding point `ty`, unless the handle is null.
    pub fn new(handle: u32, ty: BufferType) -> (buffer: Option<Self>)
        ensures
            buffer == (if handle == 0 { None } else { Some(Buffer { bo: handle, ty }) }),
    {
        if handle == 0 {
            return None;
        }
        Some(Buffer { bo: handle, ty })
    }

    /// The command that binds this buffer to its binding point.
    pub fn bind(&self) -> (command: Command)
        ensures
            command == (Command::BindBuffer { target: self.ty, buffer: self.bo }),
    {
        Command::BindBuffer { target: self.ty, buffer: self.bo }
    }

    /// The command after which no buffer is bound to `ty`.
    pub fn clear_binding(ty: BufferType) -> (command: Command)
        ensures
            command == (Command::BindBuffer { target: ty, buffer: 0 }),
    {
        Command::BindBuffer { target: ty, buffer: 0 }
    }

    /// The command that fills the buffer, once bound, with one part of the
    /// mesh that is being registered.
    pub fn buffer_data(&self, part: MeshPart, usage: BufferUsage) -> (command: Command)
        ensures
            command == (Command::BufferData { target: self.ty, part, usage }),
    {
        Command::BufferData { target: self.ty, part, usage }
    }
}

/// The driver resources that a registered mesh is drawn through.
#[derive(Clone, Copy, Debug, PartialEq, Eq)]
pub struct ObjectInformation {
    pub vao: VertexArray,
    pub inst_vbo: Buffer,
}

impl ObjectInformation {
    /// Both handles are real ones, and the instance buffer binds as an array.
    pub open spec fn valid(self) -> bool {
        &&& self.vao.0 != 0
        &&& self.inst_vbo.bo != 0
        &&& self.inst_vbo.ty == BufferType::Array
    }
}

/// How far the creation of the resources of one mesh has come.
#[derive(Clone, Copy, Debug, PartialEq, Eq)]
pub enum SetupStage {
    /// The vertex array was asked for.
    AwaitVertexArray,
    /// The vertex array is bound; the buffer for the vertices was asked for.
    AwaitVertexBuffer { vao: VertexArray },
    /// The vertices are uploaded; the buffer for the indices was asked for.
    AwaitIndexBuffer { vao: VertexArray },
    /// The indices are uploaded; the buffer for instance data was asked for.
    AwaitInstanceBuffer { vao: VertexArray },
    /// Every resource was created.
    Done(ObjectInformation),
    /// The driver answered with the null handle for this kind of resource,
    /// and nothing more was asked of it.
    Failed(Resource),
}

/// The bytes from one vertex to the next in the vertex buffer.
pub const VERTEX_STRIDE: i32 = 12;

impl SetupStage {
    /// The stage before any answer has come, and the one command that opens
    /// the exchange.
    pub open spec fn start() -> (SetupStage, Seq<Command>) {
        (SetupStage::AwaitVertexArray, seq![Command::GenVertexArray])
    }

    /// Whether the exchange is over.
    pub open spec fn finished(self) -> bool {
        self is Done || self is Failed
    }

    /// The stage after the driver has answered the pending request with
    /// `handle`, and the commands that are due then, in order. The last of
    /// them is the next request, if there is one. A null handle ends the
    /// exchange at once; a finished exchange takes no more answers.
    pub open spec fn next(self, handle: u32) -> (SetupStage, Seq<Command>) {
        match self {
            SetupStage::AwaitVertexArray => if handle == 0 {
                (SetupStage::Failed(Resource::VertexArray), Seq::empty())
            } else {
                (
                    SetupStage::AwaitVertexBuffer { vao: VertexArray(handle) },
                    seq![Command::BindVertexArray { array: handle }, Command::GenBuffer],
                )
            },
            SetupStage::AwaitVertexBuffer { vao } => if handle == 0 {
                (SetupStage::Failed(Resource::Buffer), Seq::empty())
            } else {
                (
                    SetupStage::AwaitIndexBuffer { vao },
                    seq![
                        Command::BindBuffer { target: BufferType::Array, buffer: handle },
                        Command::BufferData {
                            target: BufferType::Array,
                            part: MeshPart::Vertices,
                            usage: BufferUsage::StaticDraw,
                        },
                        Command::VertexAttribPointer { index: 0, size: 3, stride: VERTEX_STRIDE },
                        Command::EnableVertexAttribArray { index: 0 },
                        Command::GenBuffer,
                    ],
                )
            },
            SetupStage::AwaitIndexBuffer { vao } => if handle == 0 {
                (SetupStage::Failed(Resource::Buffer), Seq::empty())
            } else {
                (
                    SetupStage::AwaitInstanceBuffer { vao },
                    seq![
                        Command::BindBuffer { target: BufferType::ElementArray, buffer: handle },
                        Command::BufferData {
                            target: BufferType::ElementArray,
                            part: MeshPart::Indices,
                            usage: BufferUsage::StaticDraw,
                        },
                        Command::GenBuffer,
                    ],
                )
            },
            SetupStage::AwaitInstanceBuffer { vao } => if handle == 0 {
                (SetupStage::Failed(Resource::Buffer), Seq::empty())
            } else {
                (
                    SetupStage::Done(
                        ObjectInformation {
                            vao,
                            inst_vbo: Buffer { bo: handle, ty: BufferType::Array },
                        },
                    ),
                    seq![Command::BindBuffer { target: BufferType::Array, buffer: handle }],
                )
            },
            SetupStage::Done(info) => (self, Seq::empty()),
            SetupStage::Failed(resource) => (self, Seq::empty()),
        }
    }

    /// The stage after the driver has given the answers `handles`, one after
    /// the other.
    pub open spec fn after(self, handles: Seq<u32>) -> SetupStage
        decreases handles.len(),
    {
        if handles.len() == 0 {
            self
        } else {
            self.next(handles[0]).0.after(handles.drop_first())
        }
    }

    /// Every command that is issued while the driver gives the answers
    /// `handles`, in order.
    pub open spec fn issued(self, handles: Seq<u32>) -> Seq<Command>
        decreases handles.len(),
    {
        if handles.len() == 0 {
            Seq::empty()
        } else {
            self.next(handles[0]).1 + self.next(handles[0]).0.issued(handles.drop_first())
        }
    }

    /// How many resources are still to be created from this stage on, at
    /// most.
    pub open spec fn budget(self) -> nat {
        match self {
            SetupStage::AwaitVertexArray => 3,
            SetupStage::AwaitVertexBuffer { .. } => 2,
            SetupStage::AwaitIndexBuffer { .. } => 1,
            _ => 0,
        }
    }

    /// Every handle that the stage holds is a real one.
    pub open spec fn sound(self) -> bool {
        match self {
            SetupStage::AwaitVertexArray => true,
            SetupStage::AwaitVertexBuffer { vao } => vao.0 != 0,
            SetupStage::AwaitIndexBuffer { vao } => vao.0 != 0,
            SetupStage::AwaitInstanceBuffer { vao } => vao.0 != 0,
            SetupStage::Done(info) => info.valid(),
            SetupStage::Failed(_) => true,
        }
    }

    /// What the exchange has come to: nothing while an answer is pending,
    /// the resources once all are there, or the error that ended it.
    pub open spec fn outcome(self) -> Option<Result<ObjectInformation, Error>> {
        match self {
            SetupStage::Done(info) => Some(Ok(info)),
            SetupStage::Failed(resource) => Some(Err(Error::AllocationError(resource))),
            _ => None,
        }
    }
}

/// The bytes of a mesh as the driver takes them.
///
/// Calls `bytemuck::cast_slice` on the vertices and on the triangles. That
/// function hands back the memory of its argument as a slice of another
/// element type, so each result here has as many bytes as its list holds:
/// twelve for a vertex and twelve for a triangle. Which byte of a value
/// comes first depends on the machine, and nothing is claimed about it.
#[verifier::external_body]
fn mesh_bytes(verts: &[Vertex], tris: &[TriangleIndices]) -> (bytes: (Vec<u8>, Vec<u8>))
    ensures
        bytes.0@.len() == 12 * verts@.len(),
        bytes.1@.len() == 12 * tris@.len(),
{
    let vertices: &[u8] = bytemuck::cast_slice(verts);
    let indices: &[u8] = bytemuck::cast_slice(tris);
    (vertices.to_vec(), indices.to_vec())
}

/// The creation of the driver resources of one mesh, step by step.
///
/// The exchange opens with the commands of [`ObjectInformation::new`]. After
/// carrying out a batch of commands, the holder of the driver passes the
/// handle that the last of them produced to [`BufferSetup::step`], and gets
/// the next batch, until [`BufferSetup::finish`] has a result.
#[derive(Debug)]
pub struct BufferSetup {
    stage: SetupStage,
    vertices: Vec<u8>,
    indices: Vec<u8>,
}

impl BufferSetup {
    /// How far the exchange has come.
    pub closed spec fn stage(&self) -> SetupStage {
        self.stage
    }

    /// The bytes that an upload of the given part sends.
    pub closed spec fn data(&self, part: MeshPart) -> Seq<u8> {
        match part {
            MeshPart::Vertices => self.vertices@,
            MeshPart::Indices => self.indices@,
        }
    }

    /// Opens the exchange over bytes that are already laid out: the stage and
    /// the first command are those of [`SetupStage::start`].
    pub fn begin(vertices: Vec<u8>, indices: Vec<u8>) -> (r: (BufferSetup, Vec<Command>))
        ensures
            r.0.stage() == SetupStage::start().0,
            r.1@ == SetupStage::start().1,
            r.0.data(MeshPart::Vertices) == vertices@,
            r.0.data(MeshPart::Indices) == indices@,
    {
        let setup = BufferSetup { stage: SetupStage::AwaitVertexArray, vertices, indices };
        let mut commands: Vec<Command> = Vec::new();
        commands.push(Command::GenVertexArray);
        (setup, commands)
    }

    /// Takes the handle that the pending request produced, and moves on as
    /// [`SetupStage::next`] says. The bytes to upload stay as they are.
    pub fn step(&mut self, handle: u32) -> (commands: Vec<Command>)
        ensures
            final(self).stage() == old(self).stage().next(handle).0,
            commands@ == old(self).stage().next(handle).1,
            forall|part: MeshPart| final(self).data(part) == old(self).data(part),
    {
        let mut commands: Vec<Command> = Vec::new();
        match self.stage {
            SetupStage::AwaitVertexArray => {
                match VertexArray::new(handle) {
                    None => {
                        self.stage = SetupStage::Failed(Resource::VertexArray);
                    },
                    Some(vao) => {
                        commands.push(vao.bind());
                        commands.push(Command::GenBuffer);
                        self.stage = SetupStage::AwaitVertexBuffer { vao };
                    },
                }
            },
            SetupStage::AwaitVertexBuffer { vao } => {
                match Buffer::new(handle, BufferType::Array) {
                    None => {
                        self.stage = SetupStage::Failed(Resource::Buffer);
                    },
                    Some(vbo) => {
                        commands.push(vbo.bind());
                        commands.push(vbo.buffer_data(MeshPart::Vertices, BufferUsage::StaticDraw));
                        commands.push(
                            Command::VertexAttribPointer { index: 0, size: 3, stride: VERTEX_STRIDE },
                        );
                        commands.push(Command::EnableVertexAttribArray { index: 0 });
                        commands.push(Command::GenBuffer);
                        self.stage = SetupStage::AwaitIndexBuffer { vao };
                    },
                }
            },
            SetupStage::AwaitIndexBuffer { vao } => {
                match Buffer::new(handle, BufferType::ElementArray) {
                    None => {
                        self.stage = SetupStage::Failed(Resource::Buffer);
                    },
                    Some(ebo) => {
                        commands.push(ebo.bind());
                        commands.push(ebo.buffer_data(MeshPart::Indices, BufferUsage::StaticDraw));
                        commands.push(Command::GenBuffer);
                        self.stage = SetupStage::AwaitInstanceBuffer { vao };
                    },
                }
            },
            SetupStage::AwaitInstanceBuffer { vao } => {
                match Buffer::new(handle, BufferType::Array) {
                    None => {
                        self.stage = SetupStage::Failed(Resource::Buffer);
                    },
                    Some(inst_vbo) => {
                        commands.push(inst_vbo.bind());
                        self.stage = SetupStage::Done(ObjectInformation { vao, inst_vbo });
                    },
                }
            },
            SetupStage::Done(_) => {},
            SetupStage::Failed(_) => {},
        }
        assert(commands@ =~= old(self).stage().next(handle).1);
        commands
    }

    /// The bytes that [`Command::BufferData`] sends for the given part.
    pub fn bytes(&self, part: MeshPart) -> (bytes: &Vec<u8>)
        ensures
            bytes@ == self.data(part),
    {
        match part {
            MeshPart::Vertices => &self.vertices,
            MeshPart::Indices => &self.indices,
        }
    }

    /// What the exchange has come to, as [`SetupStage::outcome`] says.
    pub fn finish(&self) -> (outcome: Option<Result<ObjectInformation, Error>>)
        ensures
            outcome == self.stage().outcome(),
    {
        match self.stage {
            SetupStage::Done(info) => Some(Ok(info)),
            SetupStage::Failed(resource) => Some(Err(Error::AllocationError(resource))),
            _ => None,
        }
    }
}

impl ObjectInformation {
    /// Opens the creation of the driver resources of a mesh: lays its
    /// vertices and triangles out as bytes, twelve for each, and asks for
    /// the vertex array.
    pub fn new(verts: &[Vertex], tris: &[TriangleIndices]) -> (r: (BufferSetup, Vec<Command>))
        ensures
            r.0.stage() == SetupStage::start().0,
            r.1@ == SetupStage::start().1,
            r.0.data(MeshPart::Vertices).len() == 12 * verts@.len(),
            r.0.data(MeshPart::Indices).len() == 12 * tris@.len(),
    {
        let (vertices, indices) = mesh_bytes(verts, tris);
        BufferSetup::begin(vertices, indices)
    }
}

/// Feeding an exchange four handles from its start ends it: with the
/// resources, made of the first and the last handle, where all four are
/// real, and with an allocation error at the first null handle.
pub proof fn lemma_setup_outcome(h0: u32, h1: u32, h2: u32, h3: u32)
    ensures
        ({
            let end = SetupStage::start().0.after(seq![h0, h1, h2, h3]);
            &&& end.finished()
            &&& (h0 != 0 && h1 != 0 && h2 != 0 && h3 != 0) ==> end == SetupStage::Done(
                ObjectInformation {
                    vao: VertexArray(h0),
                    inst_vbo: Buffer { bo: h3, ty: BufferType::Array },
                },
            )
            &&& h0 == 0 ==> end == SetupStage::Failed(Resource::VertexArray)
            &&& (h0 != 0 && (h1 == 0 || h2 == 0 || h3 == 0)) ==> end == SetupStage::Failed(
                Resource::Buffer,
            )
        }),
{
    let s0 = SetupStage::start().0;
    let hs = seq![h0, h1, h2, h3];
    let s1 = s0.next(h0).0;
    let s2 = s1.next(h1).0;
    let s3 = s2.next(h2).0;
    let s4 = s3.next(h3).0;
    let t1 = hs.drop_first();
    let t2 = t1.drop_first();
    let t3 = t2.drop_first();
    let t4 = t3.drop_first();
    assert(t4.len() == 0);
    assert(s4.after(t4) == s4);
    assert(s3.after(t3) == s4);
    assert(s2.after(t2) == s4);
    assert(s1.after(t1) == s4);
    assert(s0.after(hs) == s4);
}

/// An exchange that has ended stays as it is and issues nothing more.
pub proof fn lemma_setup_finished_is_final(stage: SetupStage, handles: Seq<u32>)
    requires
        stage.finished(),
    ensures
        stage.after(handles) == stage,
        stage.issued(handles) == Seq::<Command>::empty(),
    decreases handles.len(),
{
    if handles.len() > 0 {
        lemma_setup_finished_is_final(stage, handles.drop_first());
    }
}

/// How many of the commands create a resource.
pub open spec fn creations(commands: Seq<Command>) -> nat
    decreases commands.len(),
{
    if commands.len() == 0 {
        0
    } else {
        creations(commands.drop_last()) + (if commands.last() is GenVertexArray
            || commands.last() is GenBuffer {
            1nat
        } else {
            0nat
        })
    }
}

/// The creations in two lists of commands add up.
pub proof fn lemma_creations_add(a: Seq<Command>, b: Seq<Command>)
    ensures
        creations(a + b) == creations(a) + creations(b),
    decreases b.len(),
{
    if b.len() == 0 {
        assert(a + b =~= a);
    } else {
        assert((a + b).drop_last() =~= a + b.drop_last());
        lemma_creations_add(a, b.drop_last());
    }
}

/// Whatever the driver answers, an exchange creates no more than what is
/// left of its budget.
pub proof fn lemma_setup_keeps_its_budget(stage: SetupStage, handles: Seq<u32>)
    ensures
        creations(stage.issued(handles)) <= stage.budget(),
    decreases handles.len(),
{
    if handles.len() > 0 {
        let (then, first) = stage.next(handles[0]);
        lemma_setup_keeps_its_budget(then, handles.drop_first());
        lemma_creations_add(first, then.issued(handles.drop_first()));
        assert(creations(first) + then.budget() <= stage.budget()) by {
            reveal_with_fuel(creations, 6);
        }
    }
}

/// The resources of a mesh are created once: whatever the driver answers
/// and however long the exchange is fed, it asks for one vertex array and
/// for no more than three buffers.
pub proof fn lemma_setup_creates_once(handles: Seq<u32>)
    ensures
        creations(SetupStage::start().1 + SetupStage::start().0.issued(handles)) <= 4,
        SetupStage::start().1 == seq![Command::GenVertexArray],
{
    let (stage, first) = SetupStage::start();
    lemma_setup_keeps_its_budget(stage, handles);
    lemma_creations_add(first, stage.issued(handles));
    assert(creations(first) == 1) by {
        reveal_with_fuel(creations, 2);
    }
}

/// The resources of a finished exchange are real: no handle in them is null.
pub proof fn lemma_setup_done_is_valid(handles: Seq<u32>)
    ensures
        SetupStage::start().0.after(handles) matches SetupStage::Done(info) ==> info.valid(),
{
    lemma_setup_reach(SetupStage::start().0, handles);
}

/// Answers never make a stage hold a null handle.
pub proof fn lemma_setup_reach(stage: SetupStage, handles: Seq<u32>)
    requires
        stage.sound(),
    ensures
        stage.after(handles).sound(),
    decreases handles.len(),
{
    if handles.len() > 0 {
        lemma_setup_reach(stage.next(handles[0]).0, handles.drop_first());
    }
}

} // verus!
