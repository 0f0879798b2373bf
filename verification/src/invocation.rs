//! What one run of the compiler is made of: the command line, the
//! environment and the three standard streams of the child process.

use vstd::prelude::*;

verus! {

/// The family of the platform that the compiler runs on. It decides the path
/// under which output can be thrown away.
#[derive(Clone, Copy, Debug, PartialEq, Eq, Structural)]
pub enum Platform {
    Unix,
    Windows,
}

impl Platform {
    /// The path of the null device, as a sequence of characters.
    pub open spec fn null_device_path(self) -> Seq<char> {
        match self {
            Platform::Unix => "/dev/null"@,
            Platform::Windows => "NUL"@,
        }
    }

    /// The path of the null device: what is written there is discarded.
    pub fn null_device(self) -> (path: &'static str)
        ensures
            path@ == self.null_device_path(),
    {
        match self {
            Platform::Unix => "/dev/null",
            Platform::Windows => "NUL",
        }
    }
}

/// Where a standard stream of the child process leads.
#[derive(Clone, Copy, Debug, PartialEq, Eq, Structural)]
pub enum Stream {
    /// A pipe, the other end of which the parent holds.
    Piped,
    /// The null device.
    Null,
}

/// One run of the compiler, as plain values: the program to start, its
/// arguments in order, the environment variables to set for it beyond those
/// that it inherits, and its standard streams.
#[derive(Clone, Debug, PartialEq, Eq)]
pub struct Invocation {
    pub program: String,
    pub args: Vec<String>,
    pub env: Vec<(String, String)>,
    pub stdin: Stream,
    pub stdout: Stream,
    pub stderr: Stream,
}

/// The mathematical content of an [`Invocation`].
pub struct InvocationView {
    pub program: Seq<char>,
    pub args: Seq<Seq<char>>,
    pub env: Seq<(Seq<char>, Seq<char>)>,
    pub stdin: Stream,
    pub stdout: Stream,
    pub stderr: Stream,
}

impl View for Invocation {
    type V = InvocationView;

    open spec fn view(&self) -> InvocationView {
        InvocationView {
            program: self.program@,
            args: self.args.deep_view(),
            env: self.env.deep_view(),
            stdin: self.stdin,
            stdout: self.stdout,
            stderr: self.stderr,
        }
    }
}

} // verus!
