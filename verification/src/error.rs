//! What can go wrong.

use vstd::prelude::*;
use crate::command::ShaderType;

verus! {

/// The kinds of resource that the graphics driver creates on request.
#[derive(Clone, Copy, Debug, PartialEq, Eq, Structural)]
pub enum Resource {
    Shader,
    Program,
    VertexArray,
    Buffer,
}

/// The errors of this crate.
#[derive(Debug, PartialEq, Eq)]
pub enum Error {
    /// The driver answered a request for a resource with the null handle.
    AllocationError(Resource),
    /// A shader did not compile; the text is what the driver said about it.
    ShaderCompileError(ShaderType, String),
    /// The program did not link; the text is what the driver said about it.
    ShaderLinkError(String),
    /// An index pointed past the end of the list it was meant for.
    IndexOutOfRange,
}

/// An [`Error`] with its text as a sequence of characters.
pub enum ErrorView {
    AllocationError(Resource),
    ShaderCompileError(ShaderType, Seq<char>),
    ShaderLinkError(Seq<char>),
    IndexOutOfRange,
}

impl View for Error {
    type V = ErrorView;

    open spec fn view(&self) -> ErrorView {
        match *self {
            Error::AllocationError(resource) => ErrorView::AllocationError(resource),
            Error::ShaderCompileError(stage, log) => ErrorView::ShaderCompileError(stage, log@),
            Error::ShaderLinkError(log) => ErrorView::ShaderLinkError(log@),
            Error::IndexOutOfRange => ErrorView::IndexOutOfRange,
        }
    }
}

impl ErrorView {
    /// The words that come before the text of the driver, or the whole
    /// message where the driver said nothing.
    pub open spec fn headline(self) -> Seq<char> {
        match self {
            ErrorView::AllocationError(Resource::Shader) => "Couldn't allocate new shader"@,
            ErrorView::AllocationError(Resource::Program) => "Couldn't allocate a program"@,
            ErrorView::AllocationError(Resource::VertexArray) => "Couldn't allocate a vertex array"@,
            ErrorView::AllocationError(Resource::Buffer) => "Couldn't allocate a buffer"@,
            ErrorView::ShaderCompileError(ShaderType::Vert, _) => "Vertex Compile Error: "@,
            ErrorView::ShaderCompileError(ShaderType::Frag, _) => "Fragment Compile Error: "@,
            ErrorView::ShaderCompileError(ShaderType::Compute, _) => "Compute Compile Error: "@,
            ErrorView::ShaderLinkError(_) => "Program Link Error: "@,
            ErrorView::IndexOutOfRange => "Index out of range"@,
        }
    }

    /// What the driver said, empty where it said nothing.
    pub open spec fn detail(self) -> Seq<char> {
        match self {
            ErrorView::ShaderCompileError(_, log) => log,
            ErrorView::ShaderLinkError(log) => log,
            _ => Seq::empty(),
        }
    }

    /// The message of the error: the headline, then the detail.
    pub open spec fn message(self) -> Seq<char> {
        self.headline() + self.detail()
    }
}

/// `String::push_str` appends the characters of `other` to the string and
/// leaves what stood there before in place.
pub assume_specification[ String::push_str ](s: &mut String, other: &str)
    ensures
        final(s)@ == old(s)@ + other@,
;

impl Error {
    /// The message of the error as text for a reader.
    pub fn message(&self) -> (text: String)
        ensures
            text@ == self@.message(),
    {
        let mut text = String::new();
        match self {
            Error::AllocationError(Resource::Shader) => {
                text.push_str("Couldn't allocate new shader");
            },
            Error::AllocationError(Resource::Program) => {
                text.push_str("Couldn't allocate a program");
            },
            Error::AllocationError(Resource::VertexArray) => {
                text.push_str("Couldn't allocate a vertex array");
            },
            Error::AllocationError(Resource::Buffer) => {
                text.push_str("Couldn't allocate a buffer");
            },
            Error::ShaderCompileError(stage, log) => {
                match stage {
                    ShaderType::Vert => text.push_str("Vertex Compile Error: "),
                    ShaderType::Frag => text.push_str("Fragment Compile Error: "),
                    ShaderType::Compute => text.push_str("Compute Compile Error: "),
                }
                text.push_str(log.as_str());
            },
            Error::ShaderLinkError(log) => {
                text.push_str("Program Link Error: ");
                text.push_str(log.as_str());
            },
            Error::IndexOutOfRange => {
                text.push_str("Index out of range");
            },
        }
        assert(text@ =~= self@.message());
        text
    }
}

} // verus!
