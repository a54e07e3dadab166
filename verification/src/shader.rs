//! Shaders, programs, and how each is built from what the driver answers.

use vstd::prelude::*;
use crate::command::{decode_lossy, utf8_lossy, Command, Reply, ReplyView, ShaderType, STATUS_TRUE};
use crate::error::{Error, ErrorView, Resource};

verus! {

/// A shader of the driver, by its handle.
#[derive(Clone, Copy, Debug, PartialEq, Eq)]
pub struct Shader(pub u32);

/// A program of the driver, by its handle.
#[derive(Clone, Copy, Debug, PartialEq, Eq)]
pub struct ShaderProgram(pub u32);

/// How far the build of one shader has come.
#[derive(Clone, Copy, Debug, PartialEq, Eq)]
pub enum CompileStage {
    /// The shader was asked for.
    AwaitShader { ty: ShaderType },
    /// The shader got its source and was compiled; its status was asked for.
    AwaitStatus { ty: ShaderType, shader: Shader },
    /// The compilation failed; the diagnostic text was asked for.
    AwaitLog { ty: ShaderType, shader: Shader },
    /// The shader is compiled.
    Compiled(Shader),
    /// The driver created no shader.
    NoShader,
    /// The shader did not compile and was released.
    Rejected { ty: ShaderType },
}

impl CompileStage {
    /// The stage before any answer has come, and the one command that opens
    /// the build.
    pub open spec fn start(ty: ShaderType) -> (CompileStage, Seq<Command>) {
        (CompileStage::AwaitShader { ty }, seq![Command::CreateShader(ty)])
    }

    /// Whether the build is over.
    pub open spec fn finished(self) -> bool {
        self is Compiled || self is NoShader || self is Rejected
    }

    /// The stage after the driver has answered the pending question with
    /// `reply`, and the commands that are due then, in order. An answer of
    /// another kind than the one waited for changes nothing.
    pub open spec fn next(self, reply: ReplyView) -> (CompileStage, Seq<Command>) {
        match (self, reply) {
            (CompileStage::AwaitShader { ty }, ReplyView::Handle(handle)) => if handle == 0 {
                (CompileStage::NoShader, Seq::empty())
            } else {
                (
                    CompileStage::AwaitStatus { ty, shader: Shader(handle) },
                    seq![
                        Command::ShaderSource { shader: handle, stage: ty },
                        Command::CompileShader { shader: handle },
                        Command::GetCompileStatus { shader: handle },
                    ],
                )
            },
            (CompileStage::AwaitStatus { ty, shader }, ReplyView::Status(status)) => if status
                == STATUS_TRUE {
                (CompileStage::Compiled(shader), Seq::empty())
            } else {
                (
                    CompileStage::AwaitLog { ty, shader },
                    seq![Command::GetShaderInfoLog { shader: shader.0 }],
                )
            },
            (CompileStage::AwaitLog { ty, shader }, ReplyView::Log(_)) => (
                CompileStage::Rejected { ty },
                seq![Command::DeleteShader { shader: shader.0 }],
            ),
            _ => (self, Seq::empty()),
        }
    }

    /// The stage after the driver has given the answers `replies`, one after
    /// the other.
    pub open spec fn after(self, replies: Seq<ReplyView>) -> CompileStage
        decreases replies.len(),
    {
        if replies.len() == 0 {
            self
        } else {
            self.next(replies[0]).0.after(replies.drop_first())
        }
    }

    /// The diagnostic text that is kept after the answer `reply`: that of
    /// the answer where the build waited for it, else the text kept so far.
    pub open spec fn next_log(self, reply: ReplyView, log: Seq<char>) -> Seq<char> {
        match (self, reply) {
            (CompileStage::AwaitLog { .. }, ReplyView::Log(text)) => text,
            _ => log,
        }
    }

    /// What the build has come to, given the diagnostic text that was kept:
    /// nothing while an answer is pending, else the shader or the error.
    pub open spec fn outcome(self, log: Seq<char>) -> Option<Result<Shader, ErrorView>> {
        match self {
            CompileStage::Compiled(shader) => Some(Ok(shader)),
            CompileStage::NoShader => Some(Err(ErrorView::AllocationError(Resource::Shader))),
            CompileStage::Rejected { ty } => Some(Err(ErrorView::ShaderCompileError(ty, log))),
            _ => None,
        }
    }

    /// Moves on by one answer, as [`CompileStage::next`] says.
    pub fn advance(self, reply: &Reply) -> (r: (CompileStage, Vec<Command>))
        ensures
            r.0 == self.next(reply@).0,
            r.1@ == self.next(reply@).1,
    {
        let mut commands: Vec<Command> = Vec::new();
        let stage = match (self, reply) {
            (CompileStage::AwaitShader { ty }, Reply::Handle(handle)) => {
                match Shader::new(*handle) {
                    None => CompileStage::NoShader,
                    Some(shader) => {
                        commands.push(shader.set_source(ty));
                        commands.push(shader.compile());
                        commands.push(Command::GetCompileStatus { shader: shader.0 });
                        CompileStage::AwaitStatus { ty, shader }
                    },
                }
            },
            (CompileStage::AwaitStatus { ty, shader }, Reply::Status(status)) => {
                if shader.compile_success(*status) {
                    CompileStage::Compiled(shader)
                } else {
                    commands.push(Command::GetShaderInfoLog { shader: shader.0 });
                    CompileStage::AwaitLog { ty, shader }
                }
            },
            (CompileStage::AwaitLog { ty, shader }, Reply::Log(_)) => {
                commands.push(shader.delete());
                CompileStage::Rejected { ty }
            },
            _ => self,
        };
        assert(commands@ =~= self.next(reply@).1);
        (stage, commands)
    }
}

impl Shader {
    /// Takes the driver's answer to [`Command::CreateShader`]: a shader,
    /// unless the handle is null.
    pub fn new(handle: u32) -> (shader: Option<Self>)
        ensures
            shader == (if handle == 0 { None } else { Some(Shader(handle)) }),
    {
        if handle == 0 {
            return None;
        }
        Some(Shader(handle))
    }

    /// The command that hands the shader the source text of `stage`, which
    /// the build at hand keeps.
    pub fn set_source(&self, stage: ShaderType) -> (command: Command)
        ensures
            command == (Command::ShaderSource { shader: self.0, stage }),
    {
        Command::ShaderSource { shader: self.0, stage }
    }

    /// The command that compiles the shader.
    pub fn compile(&self) -> (command: Command)
        ensures
            command == (Command::CompileShader { shader: self.0 }),
    {
        Command::CompileShader { shader: self.0 }
    }

    /// Whether the status that the driver reported after a compilation
    /// stands for success.
    pub fn compile_success(&self, status: i32) -> (success: bool)
        ensures
            success == (status == STATUS_TRUE),
    {
        status == STATUS_TRUE
    }

    /// The diagnostic text of the shader, from the bytes that the driver
    /// wrote in answer to [`Command::GetShaderInfoLog`].
    pub fn info_log(&self, written: &[u8]) -> (text: String)
        ensures
            text@ == utf8_lossy(written@),
    {
        decode_lossy(written)
    }

    /// The command that releases the shader.
    pub fn delete(self) -> (command: Command)
        ensures
            command == (Command::DeleteShader { shader: self.0 }),
    {
        Command::DeleteShader { shader: self.0 }
    }

    /// Opens the build of a shader of the given stage from its source text:
    /// see [`ShaderBuild`].
    pub fn from_source(ty: ShaderType, source: &str) -> (r: (ShaderBuild, Vec<Command>))
        ensures
            r.0.stage() == CompileStage::start(ty).0,
            r.0.log() == Seq::<char>::empty(),
            r.0.text() == source@,
            r.1@ == CompileStage::start(ty).1,
    {
        let build = ShaderBuild {
            stage: CompileStage::AwaitShader { ty },
            source: source.to_owned(),
            log: String::new(),
        };
        let mut commands: Vec<Command> = Vec::new();
        commands.push(Command::CreateShader(ty));
        (build, commands)
    }
}

/// The build of one shader, step by step: create it, hand it its source,
/// compile it, and ask how that went. Where it did not compile, fetch what
/// the driver has to say and release the shader.
///
/// After carrying out a batch of commands, the holder of the driver passes
/// the answer to the last of them to [`ShaderBuild::step`] and gets the next
/// batch, until [`ShaderBuild::finish`] has a result.
#[derive(Debug)]
pub struct ShaderBuild {
    stage: CompileStage,
    source: String,
    log: String,
}

impl ShaderBuild {
    /// How far the build has come.
    pub closed spec fn stage(&self) -> CompileStage {
        self.stage
    }

    /// The diagnostic text that the build keeps.
    pub closed spec fn log(&self) -> Seq<char> {
        self.log@
    }

    /// The source text that the shader is built from.
    pub closed spec fn text(&self) -> Seq<char> {
        self.source@
    }

    /// The source text that [`Command::ShaderSource`] hands to the shader.
    pub fn source(&self) -> (source: &str)
        ensures
            source@ == self.text(),
    {
        self.source.as_str()
    }

    /// Takes the answer to the pending question and moves on, as
    /// [`CompileStage::next`] and [`CompileStage::next_log`] say. The source
    /// text stays as it is.
    pub fn step(&mut self, reply: Reply) -> (commands: Vec<Command>)
        ensures
            final(self).stage() == old(self).stage().next(reply@).0,
            final(self).log() == old(self).stage().next_log(reply@, old(self).log()),
            final(self).text() == old(self).text(),
            commands@ == old(self).stage().next(reply@).1,
    {
        let (stage, commands) = self.stage.advance(&reply);
        match (self.stage, reply) {
            (CompileStage::AwaitLog { .. }, Reply::Log(text)) => {
                self.log = text;
            },
            _ => {},
        }
        self.stage = stage;
        commands
    }

    /// What the build has come to, as [`CompileStage::outcome`] says.
    pub fn finish(&self) -> (outcome: Option<Result<Shader, Error>>)
        ensures
            match self.stage().outcome(self.log()) {
                None => outcome is None,
                Some(Ok(shader)) => outcome == Some(Ok::<Shader, Error>(shader)),
                Some(Err(error)) => outcome matches Some(Err(e)) && e@ == error,
            },
    {
        match self.stage {
            CompileStage::Compiled(shader) => Some(Ok(shader)),
            CompileStage::NoShader => Some(Err(Error::AllocationError(Resource::Shader))),
            CompileStage::Rejected { ty } => Some(
                Err(Error::ShaderCompileError(ty, self.log.clone())),
            ),
            _ => None,
        }
    }
}

/// How far the build of a program has come.
#[derive(Clone, Copy, Debug, PartialEq, Eq)]
pub enum LinkStage {
    /// The program was asked for.
    AwaitProgram,
    /// The vertex shader is being built.
    Vertex { program: ShaderProgram, build: CompileStage },
    /// The vertex shader is compiled; the fragment shader is being built.
    Fragment { program: ShaderProgram, vert: Shader, build: CompileStage },
    /// Both shaders were attached and released and the program was linked;
    /// its status was asked for.
    AwaitStatus { program: ShaderProgram },
    /// The link failed; the diagnostic text was asked for.
    AwaitLog { program: ShaderProgram },
    /// The program is linked.
    Linked(ShaderProgram),
    /// The driver created no program.
    NoProgram,
    /// The driver created no shader for one of the two stages.
    NoShader,
    /// The shader of this stage did not compile.
    Rejected { ty: ShaderType },
    /// The program did not link and was released.
    Unlinked,
}

impl LinkStage {
    /// The stage before any answer has come, and the one command that opens
    /// the build.
    pub open spec fn start() -> (LinkStage, Seq<Command>) {
        (LinkStage::AwaitProgram, seq![Command::CreateProgram])
    }

    /// Whether the build is over.
    pub open spec fn finished(self) -> bool {
        self is Linked || self is NoProgram || self is NoShader || self is Rejected
            || self is Unlinked
    }

    /// The commands that put two compiled shaders into a program: attach
    /// both, link, release both, and ask how the link went.
    pub open spec fn link_commands(program: ShaderProgram, vert: Shader, frag: Shader) -> Seq<
        Command,
    > {
        seq![
            Command::AttachShader { program: program.0, shader: vert.0 },
            Command::AttachShader { program: program.0, shader: frag.0 },
            Command::LinkProgram { program: program.0 },
            Command::DeleteShader { shader: vert.0 },
            Command::DeleteShader { shader: frag.0 },
            Command::GetLinkStatus { program: program.0 },
        ]
    }

    /// The stage after the driver has answered the pending question with
    /// `reply`, and the commands that are due then, in order. While a shader
    /// is being built the answer goes to that build. An answer of another
    /// kind than the one waited for changes nothing.
    pub open spec fn next(self, reply: ReplyView) -> (LinkStage, Seq<Command>) {
        match self {
            LinkStage::AwaitProgram => match reply {
                ReplyView::Handle(handle) => if handle == 0 {
                    (LinkStage::NoProgram, Seq::empty())
                } else {
                    (
                        LinkStage::Vertex {
                            program: ShaderProgram(handle),
                            build: CompileStage::start(ShaderType::Vert).0,
                        },
                        CompileStage::start(ShaderType::Vert).1,
                    )
                },
                _ => (self, Seq::empty()),
            },
            LinkStage::Vertex { program, build } => {
                let (then, commands) = build.next(reply);
                match then {
                    CompileStage::Compiled(vert) => (
                        LinkStage::Fragment {
                            program,
                            vert,
                            build: CompileStage::start(ShaderType::Frag).0,
                        },
                        commands + CompileStage::start(ShaderType::Frag).1,
                    ),
                    CompileStage::NoShader => (LinkStage::NoShader, commands),
                    CompileStage::Rejected { ty } => (LinkStage::Rejected { ty }, commands),
                    _ => (LinkStage::Vertex { program, build: then }, commands),
                }
            },
            LinkStage::Fragment { program, vert, build } => {
                let (then, commands) = build.next(reply);
                match then {
                    CompileStage::Compiled(frag) => (
                        LinkStage::AwaitStatus { program },
                        commands + Self::link_commands(program, vert, frag),
                    ),
                    CompileStage::NoShader => (LinkStage::NoShader, commands),
                    CompileStage::Rejected { ty } => (LinkStage::Rejected { ty }, commands),
                    _ => (LinkStage::Fragment { program, vert, build: then }, commands),
                }
            },
            LinkStage::AwaitStatus { program } => match reply {
                ReplyView::Status(status) => if status == STATUS_TRUE {
                    (LinkStage::Linked(program), Seq::empty())
                } else {
                    (
                        LinkStage::AwaitLog { program },
                        seq![Command::GetProgramInfoLog { program: program.0 }],
                    )
                },
                _ => (self, Seq::empty()),
            },
            LinkStage::AwaitLog { program } => match reply {
                ReplyView::Log(_) => (
                    LinkStage::Unlinked,
                    seq![Command::DeleteProgram { program: program.0 }],
                ),
                _ => (self, Seq::empty()),
            },
            _ => (self, Seq::empty()),
        }
    }

    /// The stage after the driver has given the answers `replies`, one after
    /// the other.
    pub open spec fn after(self, replies: Seq<ReplyView>) -> LinkStage
        decreases replies.len(),
    {
        if replies.len() == 0 {
            self
        } else {
            self.next(replies[0]).0.after(replies.drop_first())
        }
    }

    /// Every command that is issued while the driver gives the answers
    /// `replies`, in order.
    pub open spec fn issued(self, replies: Seq<ReplyView>) -> Seq<Command>
        decreases replies.len(),
    {
        if replies.len() == 0 {
            Seq::empty()
        } else {
            self.next(replies[0]).1 + self.next(replies[0]).0.issued(replies.drop_first())
        }
    }

    /// The diagnostic text that is kept after the answer `reply`: that of
    /// the answer where the build waited for it, else the text kept so far.
    pub open spec fn next_log(self, reply: ReplyView, log: Seq<char>) -> Seq<char> {
        match self {
            LinkStage::Vertex { build, .. } => build.next_log(reply, log),
            LinkStage::Fragment { build, .. } => build.next_log(reply, log),
            LinkStage::AwaitLog { .. } => match reply {
                ReplyView::Log(text) => text,
                _ => log,
            },
            _ => log,
        }
    }

    /// Whether the build waits for diagnostic text.
    pub open spec fn awaits_log(self) -> bool {
        match self {
            LinkStage::Vertex { build, .. } => build is AwaitLog,
            LinkStage::Fragment { build, .. } => build is AwaitLog,
            LinkStage::AwaitLog { .. } => true,
            _ => false,
        }
    }

    /// What the build has come to, given the diagnostic text that was kept:
    /// nothing while an answer is pending, else the program or the error.
    pub open spec fn outcome(self, log: Seq<char>) -> Option<Result<ShaderProgram, ErrorView>> {
        match self {
            LinkStage::Linked(program) => Some(Ok(program)),
            LinkStage::NoProgram => Some(Err(ErrorView::AllocationError(Resource::Program))),
            LinkStage::NoShader => Some(Err(ErrorView::AllocationError(Resource::Shader))),
            LinkStage::Rejected { ty } => Some(Err(ErrorView::ShaderCompileError(ty, log))),
            LinkStage::Unlinked => Some(Err(ErrorView::ShaderLinkError(log))),
            _ => None,
        }
    }

    /// Moves on by one answer, as [`LinkStage::next`] says.
    pub fn advance(self, reply: &Reply) -> (r: (LinkStage, Vec<Command>))
        ensures
            r.0 == self.next(reply@).0,
            r.1@ == self.next(reply@).1,
    {
        match self {
            LinkStage::AwaitProgram => {
                let mut commands: Vec<Command> = Vec::new();
                let stage = match reply {
                    Reply::Handle(handle) => {
                        match ShaderProgram::new(*handle) {
                            None => LinkStage::NoProgram,
                            Some(program) => {
                                commands.push(Command::CreateShader(ShaderType::Vert));
                                LinkStage::Vertex {
                                    program,
                                    build: CompileStage::AwaitShader { ty: ShaderType::Vert },
                                }
                            },
                        }
                    },
                    _ => self,
                };
                assert(commands@ =~= self.next(reply@).1);
                (stage, commands)
            },
            LinkStage::Vertex { program, build } => {
                let (then, mut commands) = build.advance(reply);
                let stage = match then {
                    CompileStage::Compiled(vert) => {
                        commands.push(Command::CreateShader(ShaderType::Frag));
                        LinkStage::Fragment {
                            program,
                            vert,
                            build: CompileStage::AwaitShader { ty: ShaderType::Frag },
                        }
                    },
                    CompileStage::NoShader => LinkStage::NoShader,
                    CompileStage::Rejected { ty } => LinkStage::Rejected { ty },
                    _ => LinkStage::Vertex { program, build: then },
                };
                assert(commands@ =~= self.next(reply@).1);
                (stage, commands)
            },
            LinkStage::Fragment { program, vert, build } => {
                let (then, mut commands) = build.advance(reply);
                let stage = match then {
                    CompileStage::Compiled(frag) => {
                        commands.push(program.attach_shader(&vert));
                        commands.push(program.attach_shader(&frag));
                        commands.push(program.link_program());
                        commands.push(vert.delete());
                        commands.push(frag.delete());
                        commands.push(Command::GetLinkStatus { program: program.0 });
                        LinkStage::AwaitStatus { program }
                    },
                    CompileStage::NoShader => LinkStage::NoShader,
                    CompileStage::Rejected { ty } => LinkStage::Rejected { ty },
                    _ => LinkStage::Fragment { program, vert, build: then },
                };
                assert(commands@ =~= self.next(reply@).1);
                (stage, commands)
            },
            LinkStage::AwaitStatus { program } => {
                let mut commands: Vec<Command> = Vec::new();
                let stage = match reply {
                    Reply::Status(status) => {
                        if program.link_success(*status) {
                            LinkStage::Linked(program)
                        } else {
                            commands.push(Command::GetProgramInfoLog { program: program.0 });
                            LinkStage::AwaitLog { program }
                        }
                    },
                    _ => self,
                };
                assert(commands@ =~= self.next(reply@).1);
                (stage, commands)
            },
            LinkStage::AwaitLog { program } => {
                let mut commands: Vec<Command> = Vec::new();
                let stage = match reply {
                    Reply::Log(_) => {
                        commands.push(program.delete());
                        LinkStage::Unlinked
                    },
                    _ => self,
                };
                assert(commands@ =~= self.next(reply@).1);
                (stage, commands)
            },
            _ => (self, Vec::new()),
        }
    }

    /// Whether the build waits for diagnostic text.
    pub fn waits_for_log(self) -> (waits: bool)
        ensures
            waits == self.awaits_log(),
    {
        match self {
            LinkStage::Vertex { build: CompileStage::AwaitLog { .. }, .. } => true,
            LinkStage::Fragment { build: CompileStage::AwaitLog { .. }, .. } => true,
            LinkStage::AwaitLog { .. } => true,
            _ => false,
        }
    }
}

impl ShaderProgram {
    /// Takes the driver's answer to [`Command::CreateProgram`]: a program,
    /// unless the handle is null.
    pub fn new(handle: u32) -> (program: Option<Self>)
        ensures
            program == (if handle == 0 { None } else { Some(ShaderProgram(handle)) }),
    {
        if handle == 0 {
            return None;
        }
        Some(ShaderProgram(handle))
    }

    /// The command that attaches a shader to the program.
    pub fn attach_shader(&self, shader: &Shader) -> (command: Command)
        ensures
            command == (Command::AttachShader { program: self.0, shader: shader.0 }),
    {
        Command::AttachShader { program: self.0, shader: shader.0 }
    }

    /// The command that links the program.
    pub fn link_program(&self) -> (command: Command)
        ensures
            command == (Command::LinkProgram { program: self.0 }),
    {
        Command::LinkProgram { program: self.0 }
    }

    /// Whether the status that the driver reported after a link stands for
    /// success.
    pub fn link_success(&self, status: i32) -> (success: bool)
        ensures
            success == (status == STATUS_TRUE),
    {
        status == STATUS_TRUE
    }

    /// The diagnostic text of the program, from the bytes that the driver
    /// wrote in answer to [`Command::GetProgramInfoLog`].
    pub fn info_log(&self, written: &[u8]) -> (text: String)
        ensures
            text@ == utf8_lossy(written@),
    {
        decode_lossy(written)
    }

    /// The command that makes the program the one that draws.
    pub fn use_program(&self) -> (command: Command)
        ensures
            command == (Command::UseProgram { program: self.0 }),
    {
        Command::UseProgram { program: self.0 }
    }

    /// The command that releases the program.
    pub fn delete(self) -> (command: Command)
        ensures
            command == (Command::DeleteProgram { program: self.0 }),
    {
        Command::DeleteProgram { program: self.0 }
    }

    /// Opens the build of a program from the source texts of a vertex and
    /// of a fragment shader: see [`ProgramBuild`].
    pub fn from_vert_frag(vert: &str, frag: &str) -> (r: (ProgramBuild, Vec<Command>))
        ensures
            r.0.stage() == LinkStage::start().0,
            r.0.log() == Seq::<char>::empty(),
            r.0.text(ShaderType::Vert) == Some(vert@),
            r.0.text(ShaderType::Frag) == Some(frag@),
            r.1@ == LinkStage::start().1,
    {
        let build = ProgramBuild {
            stage: LinkStage::AwaitProgram,
            vert: vert.to_owned(),
            frag: frag.to_owned(),
            log: String::new(),
        };
        let mut commands: Vec<Command> = Vec::new();
        commands.push(Command::CreateProgram);
        (build, commands)
    }
}

/// The build of a program, step by step: create it, build the vertex
/// shader, build the fragment shader, attach both, link, release both, and
/// ask how the link went. Where it did not link, fetch what the driver has
/// to say and release the program. The build ends at the first failure.
///
/// After carrying out a batch of commands, the holder of the driver passes
/// the answer to the last of them to [`ProgramBuild::step`] and gets the
/// next batch, until [`ProgramBuild::finish`] has a result.
#[derive(Debug)]
pub struct ProgramBuild {
    stage: LinkStage,
    vert: String,
    frag: String,
    log: String,
}

impl ProgramBuild {
    /// How far the build has come.
    pub closed spec fn stage(&self) -> LinkStage {
        self.stage
    }

    /// The diagnostic text that the build keeps.
    pub closed spec fn log(&self) -> Seq<char> {
        self.log@
    }

    /// The source text that the shader of the given stage is built from;
    /// the program has none for a compute shader.
    pub closed spec fn text(&self, stage: ShaderType) -> Option<Seq<char>> {
        match stage {
            ShaderType::Vert => Some(self.vert@),
            ShaderType::Frag => Some(self.frag@),
            ShaderType::Compute => None,
        }
    }

    /// The source text that [`Command::ShaderSource`] hands to the shader of
    /// the given stage.
    pub fn source(&self, stage: ShaderType) -> (source: Option<&str>)
        ensures
            match self.text(stage) {
                Some(text) => source is Some && source->Some_0@ == text,
                None => source is None,
            },
    {
        match stage {
            ShaderType::Vert => Some(self.vert.as_str()),
            ShaderType::Frag => Some(self.frag.as_str()),
            ShaderType::Compute => None,
        }
    }

    /// Takes the answer to the pending question and moves on, as
    /// [`LinkStage::next`] and [`LinkStage::next_log`] say. The source texts
    /// stay as they are.
    pub fn step(&mut self, reply: Reply) -> (commands: Vec<Command>)
        ensures
            final(self).stage() == old(self).stage().next(reply@).0,
            final(self).log() == old(self).stage().next_log(reply@, old(self).log()),
            forall|stage: ShaderType| final(self).text(stage) == old(self).text(stage),
            commands@ == old(self).stage().next(reply@).1,
    {
        let (stage, commands) = self.stage.advance(&reply);
        if self.stage.waits_for_log() {
            match reply {
                Reply::Log(text) => {
                    self.log = text;
                },
                _ => {},
            }
        }
        self.stage = stage;
        commands
    }

    /// What the build has come to, as [`LinkStage::outcome`] says.
    pub fn finish(&self) -> (outcome: Option<Result<ShaderProgram, Error>>)
        ensures
            match self.stage().outcome(self.log()) {
                None => outcome is None,
                Some(Ok(program)) => outcome == Some(Ok::<ShaderProgram, Error>(program)),
                Some(Err(error)) => outcome matches Some(Err(e)) && e@ == error,
            },
    {
        match self.stage {
            LinkStage::Linked(program) => Some(Ok(program)),
            LinkStage::NoProgram => Some(Err(Error::AllocationError(Resource::Program))),
            LinkStage::NoShader => Some(Err(Error::AllocationError(Resource::Shader))),
            LinkStage::Rejected { ty } => Some(Err(Error::ShaderCompileError(ty, self.log.clone()))),
            LinkStage::Unlinked => Some(Err(Error::ShaderLinkError(self.log.clone()))),
            _ => None,
        }
    }
}

/// How the build of a shader ends. Without a handle there is no shader and
/// nothing more is asked. With a handle and a status of success the shader
/// is compiled. With a handle and any other status the diagnostic text is
/// fetched, the shader is released, and the build ends as rejected with
/// that text.
pub proof fn lemma_compile_outcome(ty: ShaderType, handle: u32, status: i32, text: Seq<char>)
    ensures
        ({
            let start = CompileStage::start(ty).0;
            let created = start.next(ReplyView::Handle(handle));
            let asked = created.0.next(ReplyView::Status(status));
            let told = asked.0.next(ReplyView::Log(text));
            &&& handle == 0 ==> created == (CompileStage::NoShader, Seq::<Command>::empty())
            &&& handle != 0 && status == STATUS_TRUE ==> asked == (
                CompileStage::Compiled(Shader(handle)),
                Seq::<Command>::empty(),
            )
            &&& handle != 0 && status != STATUS_TRUE ==> {
                &&& !asked.0.finished()
                &&& told == (
                    CompileStage::Rejected { ty },
                    seq![Command::DeleteShader { shader: handle }],
                )
                &&& asked.0.next_log(ReplyView::Log(text), Seq::empty()) == text
                &&& told.0.outcome(text) == Some(
                    Err::<Shader, ErrorView>(ErrorView::ShaderCompileError(ty, text)),
                )
            }
        }),
{
}

/// A build of a shader that has ended stays as it is and issues nothing
/// more.
pub proof fn lemma_compile_finished_is_final(stage: CompileStage, replies: Seq<ReplyView>)
    requires
        stage.finished(),
    ensures
        stage.after(replies) == stage,
    decreases replies.len(),
{
    if replies.len() > 0 {
        lemma_compile_finished_is_final(stage, replies.drop_first());
    }
}

/// A build of a program that has ended stays as it is and issues nothing
/// more.
pub proof fn lemma_link_finished_is_final(stage: LinkStage, replies: Seq<ReplyView>)
    requires
        stage.finished(),
    ensures
        stage.after(replies) == stage,
        stage.issued(replies) == Seq::<Command>::empty(),
    decreases replies.len(),
{
    if replies.len() > 0 {
        lemma_link_finished_is_final(stage, replies.drop_first());
    }
}

/// The answers of a driver that creates a program and two shaders and
/// reports success throughout.
pub open spec fn success_replies(program: u32, vert: u32, frag: u32) -> Seq<ReplyView> {
    seq![
        ReplyView::Handle(program),
        ReplyView::Handle(vert),
        ReplyView::Status(STATUS_TRUE),
        ReplyView::Handle(frag),
        ReplyView::Status(STATUS_TRUE),
        ReplyView::Status(STATUS_TRUE),
    ]
}

/// Where the driver creates everything and reports success throughout, the
/// build ends with the program linked, after these commands: the vertex
/// shader is created, given its source and compiled; the same for the
/// fragment shader; then both are attached, the program is linked, and both
/// shaders are released.
pub proof fn lemma_link_success(program: u32, vert: u32, frag: u32)
    requires
        program != 0,
        vert != 0,
        frag != 0,
    ensures
        LinkStage::start().0.after(success_replies(program, vert, frag)) == LinkStage::Linked(
            ShaderProgram(program),
        ),
        LinkStage::start().1 + LinkStage::start().0.issued(success_replies(program, vert, frag))
            == seq![
            Command::CreateProgram,
            Command::CreateShader(ShaderType::Vert),
            Command::ShaderSource { shader: vert, stage: ShaderType::Vert },
            Command::CompileShader { shader: vert },
            Command::GetCompileStatus { shader: vert },
            Command::CreateShader(ShaderType::Frag),
            Command::ShaderSource { shader: frag, stage: ShaderType::Frag },
            Command::CompileShader { shader: frag },
            Command::GetCompileStatus { shader: frag },
            Command::AttachShader { program, shader: vert },
            Command::AttachShader { program, shader: frag },
            Command::LinkProgram { program },
            Command::DeleteShader { shader: vert },
            Command::DeleteShader { shader: frag },
            Command::GetLinkStatus { program },
        ],
{
    let r0 = success_replies(program, vert, frag);
    let s0 = LinkStage::start().0;
    let s1 = s0.next(r0[0]).0;
    let r1 = r0.drop_first();
    let s2 = s1.next(r1[0]).0;
    let r2 = r1.drop_first();
    let s3 = s2.next(r2[0]).0;
    let r3 = r2.drop_first();
    let s4 = s3.next(r3[0]).0;
    let r4 = r3.drop_first();
    let s5 = s4.next(r4[0]).0;
    let r5 = r4.drop_first();
    let s6 = s5.next(r5[0]).0;
    let r6 = r5.drop_first();
    assert(r6.len() == 0);
    assert(s6.after(r6) == s6 && s6.issued(r6) =~= Seq::<Command>::empty());
    assert(s5.after(r5) == s6 && s5.issued(r5) =~= s5.next(r5[0]).1);
    assert(s4.after(r4) == s6 && s4.issued(r4) =~= s4.next(r4[0]).1 + s5.issued(r5));
    assert(s3.after(r3) == s6 && s3.issued(r3) =~= s3.next(r3[0]).1 + s4.issued(r4));
    assert(s2.after(r2) == s6 && s2.issued(r2) =~= s2.next(r2[0]).1 + s3.issued(r3));
    assert(s1.after(r1) == s6 && s1.issued(r1) =~= s1.next(r1[0]).1 + s2.issued(r2));
    assert(s0.after(r0) == s6 && s0.issued(r0) =~= s0.next(r0[0]).1 + s1.issued(r1));
    assert(s6 == LinkStage::Linked(ShaderProgram(program)));
}

/// A build of a program ends in an error at the first thing that the
/// driver does not deliver: no program, no shader, a shader that does not
/// compile, or a program that does not link. The text of the error is what
/// the driver said then.
pub proof fn lemma_link_failures(
    program: u32,
    vert: u32,
    status: i32,
    text: Seq<char>,
    shader: Shader,
)
    ensures
        LinkStage::start().0.next(ReplyView::Handle(0)).0 == LinkStage::NoProgram,
        (LinkStage::Vertex {
            program: ShaderProgram(program),
            build: CompileStage::start(ShaderType::Vert).0,
        }).next(ReplyView::Handle(0)).0 == LinkStage::NoShader,
        (LinkStage::Fragment {
            program: ShaderProgram(program),
            vert: Shader(vert),
            build: CompileStage::start(ShaderType::Frag).0,
        }).next(ReplyView::Handle(0)).0 == LinkStage::NoShader,
        ({
            let waiting = LinkStage::Vertex {
                program: ShaderProgram(program),
                build: CompileStage::AwaitLog { ty: ShaderType::Vert, shader },
            };
            &&& waiting.next(ReplyView::Log(text)).0 == (LinkStage::Rejected { ty: ShaderType::Vert })
            &&& waiting.next_log(ReplyView::Log(text), Seq::empty()) == text
        }),
        ({
            let waiting = LinkStage::Fragment {
                program: ShaderProgram(program),
                vert: Shader(vert),
                build: CompileStage::AwaitLog { ty: ShaderType::Frag, shader },
            };
            &&& waiting.next(ReplyView::Log(text)).0 == (LinkStage::Rejected { ty: ShaderType::Frag })
            &&& waiting.next_log(ReplyView::Log(text), Seq::empty()) == text
        }),
        ({
            let linked = LinkStage::AwaitStatus { program: ShaderProgram(program) };
            let asked = linked.next(ReplyView::Status(status));
            status != STATUS_TRUE ==> {
                &&& asked == (
                    LinkStage::AwaitLog { program: ShaderProgram(program) },
                    seq![Command::GetProgramInfoLog { program }],
                )
                &&& asked.0.next(ReplyView::Log(text)) == (
                    LinkStage::Unlinked,
                    seq![Command::DeleteProgram { program }],
                )
                &&& asked.0.next_log(ReplyView::Log(text), Seq::empty()) == text
                &&& LinkStage::Unlinked.outcome(text) == Some(
                    Err::<ShaderProgram, ErrorView>(ErrorView::ShaderLinkError(text)),
                )
            }
        }),
{
}

} // verus!
