//! The byte streams that the relay moves data between.

use vstd::prelude::*;

verus! {

/// One of the three standard streams of the spawned child.
#[derive(Clone, Copy, Debug, PartialEq, Eq, Structural)]
pub enum Pipe {
    Stdin,
    Stdout,
    Stderr,
}

/// The end of a relay loop at which an operation takes place.
#[derive(Clone, Copy, Debug, PartialEq, Eq, Structural)]
pub enum Side {
    /// Taking a chunk from the source.
    Read,
    /// Handing a chunk to the sink.
    Write,
}

/// One of the four relay loops. Each copies from one source to one sink and
/// shares nothing with the others.
#[derive(Clone, Copy, Debug, PartialEq, Eq, Structural)]
pub enum Lane {
    /// Injector: its own input into the endpoint.
    Inject,
    /// Host: the endpoint into the child's input.
    Inbound,
    /// Host: the child's output onto the host's output.
    Output,
    /// Host: the child's error stream onto the host's error stream.
    Error,
}

impl Pipe {
    /// The conventional name of the stream.
    pub open spec fn name_of(self) -> Seq<char> {
        match self {
            Pipe::Stdin => "stdin"@,
            Pipe::Stdout => "stdout"@,
            Pipe::Stderr => "stderr"@,
        }
    }

    /// The conventional name of the stream.
    pub fn name(self) -> (text: &'static str)
        ensures
            text@ == self.name_of(),
    {
        match self {
            Pipe::Stdin => "stdin",
            Pipe::Stdout => "stdout",
            Pipe::Stderr => "stderr",
        }
    }
}

impl Lane {
    /// Whether the loop runs inside the host.
    pub open spec fn of_host(self) -> bool {
        self != Lane::Inject
    }

    /// Whether the loop runs inside the host.
    pub fn is_of_host(self) -> (b: bool)
        ensures
            b == self.of_host(),
    {
        match self {
            Lane::Inject => false,
            _ => true,
        }
    }

    /// What the loop reads from.
    pub open spec fn source_of(self) -> Seq<char> {
        match self {
            Lane::Inject => "stdin"@,
            Lane::Inbound => "socket"@,
            Lane::Output => "stdout"@,
            Lane::Error => "stderr"@,
        }
    }

    /// What the loop writes to.
    pub open spec fn sink_of(self) -> Seq<char> {
        match self {
            Lane::Inject => "socket"@,
            Lane::Inbound => "stdin"@,
            Lane::Output => "stdout"@,
            Lane::Error => "stderr"@,
        }
    }

    /// The name of what the loop reads from.
    pub fn source(self) -> (text: &'static str)
        ensures
            text@ == self.source_of(),
    {
        match self {
            Lane::Inject => "stdin",
            Lane::Inbound => "socket",
            Lane::Output => "stdout",
            Lane::Error => "stderr",
        }
    }

    /// The name of what the loop writes to.
    pub fn sink(self) -> (text: &'static str)
        ensures
            text@ == self.sink_of(),
    {
        match self {
            Lane::Inject => "socket",
            Lane::Inbound => "stdin",
            Lane::Output => "stdout",
            Lane::Error => "stderr",
        }
    }
}

} // verus!
