//! What can go wrong, and how it is reported.
//!
//! Nothing is retried and nothing is recovered in place: every failure ends the
//! role in which it occurs. A failure names the step that failed, so that the
//! operator learns which one it was.

use vstd::prelude::*;
use crate::lane::{Lane, Pipe, Side};

verus! {

/// The step that failed.
#[derive(Clone, Copy, Debug, PartialEq, Eq, Structural)]
pub enum Failure {
    /// An entry left under the endpoint's name could not be removed.
    RemoveStale,
    /// The endpoint could not be created.
    CreateEndpoint,
    /// No host answers under the endpoint's name.
    Connect,
    /// The child could not be launched.
    Spawn,
    /// The child came up without one of its three streams.
    OpenPipe(Pipe),
    /// A relay loop could not read from its source or write to its sink.
    Transport(Lane, Side),
    /// The endpoint's name could not be removed on the way out.
    Cleanup,
}

/// The three kinds of failure.
#[derive(Clone, Copy, Debug, PartialEq, Eq, Structural)]
pub enum FailureClass {
    /// Before any relay loop has started.
    Setup,
    /// In the middle of a relay loop.
    Transport,
    /// While removing the endpoint after the relay loops have ended.
    Cleanup,
}

impl Failure {
    /// The kind of the failure.
    pub open spec fn class_of(self) -> FailureClass {
        match self {
            Failure::Transport(_, _) => FailureClass::Transport,
            Failure::Cleanup => FailureClass::Cleanup,
            _ => FailureClass::Setup,
        }
    }

    /// The line shown to the operator.
    pub open spec fn message_of(self) -> Seq<char> {
        match self {
            Failure::RemoveStale => "Failed to remove existing unix socket"@,
            Failure::CreateEndpoint => "Failed to create unix socket"@,
            Failure::Connect => "Failed to connect to unix socket"@,
            Failure::Spawn => "Failed to start child process"@,
            Failure::OpenPipe(pipe) => "Failed to open "@ + pipe.name_of(),
            Failure::Transport(lane, Side::Read) => "Failed to read from "@ + lane.source_of(),
            Failure::Transport(lane, Side::Write) => "Failed to write to "@ + lane.sink_of(),
            Failure::Cleanup => "Failed to cleanup our socket when we finished with it"@,
        }
    }

    /// The kind of the failure.
    pub fn class(self) -> (class: FailureClass)
        ensures
            class == self.class_of(),
    {
        match self {
            Failure::Transport(_, _) => FailureClass::Transport,
            Failure::Cleanup => FailureClass::Cleanup,
            _ => FailureClass::Setup,
        }
    }

    /// The line shown to the operator. It names the step that failed.
    pub fn message(self) -> (text: String)
        ensures
            text@ == self.message_of(),
    {
        match self {
            Failure::RemoveStale => String::from_str("Failed to remove existing unix socket"),
            Failure::CreateEndpoint => String::from_str("Failed to create unix socket"),
            Failure::Connect => String::from_str("Failed to connect to unix socket"),
            Failure::Spawn => String::from_str("Failed to start child process"),
            Failure::OpenPipe(pipe) => String::from_str("Failed to open ").concat(pipe.name()),
            Failure::Transport(lane, Side::Read) => String::from_str("Failed to read from ").concat(
                lane.source(),
            ),
            Failure::Transport(lane, Side::Write) => String::from_str("Failed to write to ").concat(
                lane.sink(),
            ),
            Failure::Cleanup => String::from_str(
                "Failed to cleanup our socket when we finished with it",
            ),
        }
    }
}

} // verus!
