//! The injector: a short-lived feeder of an existing endpoint.
//!
//! The injector opens an endpoint of its own, which needs no name, connects it
//! to the host's endpoint by label, and relays its own input into it until that
//! input is exhausted. With no host under the label the connection fails and
//! the injector gives up at once: it neither waits nor pretends to have sent.
//!
//! The caller performs each action and reports its outcome as an event.
//!
//! Nothing is acknowledged: that the endpoint took a chunk says neither that the
//! host has handed it to the child nor that the child has read it.

use vstd::prelude::*;
use crate::endpoint::{socket_path, socket_path_of};
use crate::failure::Failure;
use crate::lane::{Lane, Side};
use crate::relay::{Relay, RelayPhase};

verus! {

/// Where an injector stands.
#[derive(Clone, Copy, Debug, PartialEq, Eq, Structural)]
pub enum InjectorPhase {
    /// Opening an endpoint of its own.
    Opening,
    /// Connecting to the host's endpoint.
    Connecting,
    /// Relaying its input into the endpoint.
    Relaying,
    /// Done: the input is exhausted and the injector exits with code 0.
    Done,
    /// Over, with a failure.
    Failed(Failure),
}

/// What the caller of an injector has to do next.
#[derive(Clone, Copy, Debug, PartialEq, Eq, Structural)]
pub enum InjectorAction {
    /// Open an endpoint without a name.
    Open,
    /// Connect it to the host's endpoint.
    Connect,
    /// Run the relay loop from the injector's input into the endpoint.
    Relay,
    /// Exit with code 0.
    Exit,
    /// Give up and report the failure.
    Abort(Failure),
}

/// What the caller of an injector reports back.
#[derive(Clone, Copy, Debug, PartialEq, Eq, Structural)]
pub enum InjectorEvent {
    /// The injector's own endpoint exists.
    Opened,
    /// The injector's own endpoint could not be created.
    OpenFailed,
    /// A host answers under the name.
    Connected,
    /// No host answers under the name.
    ConnectFailed,
    /// The relay loop saw the end of the input.
    RelayEnded,
    /// The relay loop failed on this side.
    RelayFailed(Side),
}

impl InjectorPhase {
    /// Whether the injector is over.
    pub open spec fn is_over(self) -> bool {
        self is Done || self is Failed
    }

    /// What the caller has to do in this phase.
    pub open spec fn action(self) -> InjectorAction {
        match self {
            InjectorPhase::Opening => InjectorAction::Open,
            InjectorPhase::Connecting => InjectorAction::Connect,
            InjectorPhase::Relaying => InjectorAction::Relay,
            InjectorPhase::Done => InjectorAction::Exit,
            InjectorPhase::Failed(failure) => InjectorAction::Abort(failure),
        }
    }

    /// The phase after `event`, or `None` where the event answers nothing that
    /// the injector has asked for.
    pub open spec fn next(self, event: InjectorEvent) -> Option<InjectorPhase> {
        match self {
            InjectorPhase::Opening => match event {
                InjectorEvent::Opened => Some(InjectorPhase::Connecting),
                InjectorEvent::OpenFailed => Some(InjectorPhase::Failed(Failure::CreateEndpoint)),
                _ => None,
            },
            InjectorPhase::Connecting => match event {
                InjectorEvent::Connected => Some(InjectorPhase::Relaying),
                InjectorEvent::ConnectFailed => Some(InjectorPhase::Failed(Failure::Connect)),
                _ => None,
            },
            InjectorPhase::Relaying => match event {
                InjectorEvent::RelayEnded => Some(InjectorPhase::Done),
                InjectorEvent::RelayFailed(side) => Some(
                    InjectorPhase::Failed(Failure::Transport(Lane::Inject, side)),
                ),
                _ => None,
            },
            InjectorPhase::Done => None,
            InjectorPhase::Failed(_) => None,
        }
    }

    /// How many events an injector in this phase can accept at most before it
    /// is over.
    pub open spec fn steps_left(self) -> nat {
        match self {
            InjectorPhase::Opening => 3,
            InjectorPhase::Connecting => 2,
            InjectorPhase::Relaying => 1,
            InjectorPhase::Done => 0,
            InjectorPhase::Failed(_) => 0,
        }
    }

    /// The phase after a whole history of events. An event that answers nothing
    /// leaves the phase as it is.
    pub open spec fn run(self, events: Seq<InjectorEvent>) -> InjectorPhase
        decreases events.len(),
    {
        if events.len() == 0 {
            self
        } else {
            let before = self.run(events.drop_last());
            match before.next(events.last()) {
                Some(after) => after,
                None => before,
            }
        }
    }
}

/// An injector as the contracts see it.
#[verifier::ext_equal]
pub struct InjectorView {
    /// The name of the host's endpoint.
    pub path: Seq<char>,
    pub phase: InjectorPhase,
}

impl InjectorView {
    /// An injector for `label` that has done nothing yet.
    pub open spec fn initial(label: Seq<char>) -> InjectorView {
        InjectorView { path: socket_path_of(label), phase: InjectorPhase::Opening }
    }

    /// The state after `event`, or `None` where the event answers nothing that
    /// the injector has asked for. Only the phase ever changes.
    pub open spec fn next(self, event: InjectorEvent) -> Option<InjectorView> {
        match self.phase.next(event) {
            Some(phase) => Some(InjectorView { phase, ..self }),
            None => None,
        }
    }
}

/// An injector.
pub struct Injector {
    path: String,
    phase: InjectorPhase,
}

impl View for Injector {
    type V = InjectorView;

    closed spec fn view(&self) -> InjectorView {
        InjectorView { path: self.path@, phase: self.phase }
    }
}

impl InjectorEvent {
    /// How the injector's relay loop, once it has ended, is reported.
    pub open spec fn of_relay_spec(lane: Lane, phase: RelayPhase) -> Option<InjectorEvent> {
        if lane != Lane::Inject {
            None
        } else {
            match phase {
                RelayPhase::Finished => Some(InjectorEvent::RelayEnded),
                RelayPhase::Failed(side) => Some(InjectorEvent::RelayFailed(side)),
                _ => None,
            }
        }
    }

    /// The event by which the injector's relay loop, once it has ended, is
    /// reported; `None` while the loop still runs, and for a loop on a lane of
    /// the host.
    pub fn of_relay(relay: &Relay) -> (event: Option<InjectorEvent>)
        ensures
            event == InjectorEvent::of_relay_spec(relay@.lane, relay@.phase),
    {
        if relay.lane().is_of_host() {
            return None;
        }
        match relay.phase() {
            RelayPhase::Finished => Some(InjectorEvent::RelayEnded),
            RelayPhase::Failed(side) => Some(InjectorEvent::RelayFailed(side)),
            _ => None,
        }
    }
}

impl Injector {
    /// An injector for `label`. It has done nothing yet; its first action is to
    /// open an endpoint of its own.
    pub fn new(label: &str) -> (injector: Injector)
        ensures
            injector@ == InjectorView::initial(label@),
    {
        Injector { path: socket_path(label), phase: InjectorPhase::Opening }
    }

    /// The name of the host's endpoint.
    pub fn path(&self) -> (path: &str)
        ensures
            path@ == self@.path,
    {
        self.path.as_str()
    }

    /// Where the injector stands.
    pub fn phase(&self) -> (phase: InjectorPhase)
        ensures
            phase == self@.phase,
    {
        self.phase
    }

    /// What the caller has to do now.
    pub fn action(&self) -> (action: InjectorAction)
        ensures
            action == self@.phase.action(),
    {
        injector_action(self.phase)
    }

    /// Takes in what the caller reports and says what to do next.
    ///
    /// Returns `None`, and changes nothing, where the event answers nothing that
    /// the injector has asked for; an injector that is over accepts no event at
    /// all.
    pub fn step(&mut self, event: InjectorEvent) -> (action: Option<InjectorAction>)
        ensures
            match old(self)@.next(event) {
                Some(after) => final(self)@ == after && action == Some(after.phase.action()),
                None => final(self)@ == old(self)@ && action.is_none(),
            },
    {
        match injector_next(self.phase, event) {
            Some(phase) => {
                self.phase = phase;
                Some(injector_action(phase))
            },
            None => None,
        }
    }
}

/// What the caller has to do in `phase`.
pub fn injector_action(phase: InjectorPhase) -> (action: InjectorAction)
    ensures
        action == phase.action(),
{
    match phase {
        InjectorPhase::Opening => InjectorAction::Open,
        InjectorPhase::Connecting => InjectorAction::Connect,
        InjectorPhase::Relaying => InjectorAction::Relay,
        InjectorPhase::Done => InjectorAction::Exit,
        InjectorPhase::Failed(failure) => InjectorAction::Abort(failure),
    }
}

/// The phase that follows `phase` on `event`; `None` where the event answers
/// nothing that an injector in `phase` has asked for.
pub fn injector_next(phase: InjectorPhase, event: InjectorEvent) -> (after: Option<InjectorPhase>)
    ensures
        after == phase.next(event),
{
    match phase {
        InjectorPhase::Opening => match event {
            InjectorEvent::Opened => Some(InjectorPhase::Connecting),
            InjectorEvent::OpenFailed => Some(InjectorPhase::Failed(Failure::CreateEndpoint)),
            _ => None,
        },
        InjectorPhase::Connecting => match event {
            InjectorEvent::Connected => Some(InjectorPhase::Relaying),
            InjectorEvent::ConnectFailed => Some(InjectorPhase::Failed(Failure::Connect)),
            _ => None,
        },
        InjectorPhase::Relaying => match event {
            InjectorEvent::RelayEnded => Some(InjectorPhase::Done),
            InjectorEvent::RelayFailed(side) => Some(
                InjectorPhase::Failed(Failure::Transport(Lane::Inject, side)),
            ),
            _ => None,
        },
        InjectorPhase::Done => None,
        InjectorPhase::Failed(_) => None,
    }
}

/// Every event that an injector accepts brings it nearer to its end.
pub proof fn lemma_injector_progress(phase: InjectorPhase, event: InjectorEvent)
    ensures
        phase.next(event) matches Some(after) ==> after.steps_left() < phase.steps_left(),
        phase.is_over() <==> phase.steps_left() == 0,
{
}

/// An injector that is over stays as it is: nothing is retried.
pub proof fn lemma_injector_over_is_final(phase: InjectorPhase, events: Seq<InjectorEvent>)
    requires
        phase.is_over(),
    ensures
        phase.run(events) == phase,
    decreases events.len(),
{
    if events.len() > 0 {
        lemma_injector_over_is_final(phase, events.drop_last());
    }
}

/// With no host under the label the injector fails at once. It asks for a
/// connection to the name that belongs to its label; told that the connection
/// failed, it gives up with that failure, and whatever is reported afterwards
/// it neither relays nor succeeds.
pub proof fn lemma_no_host_is_fatal(label: Seq<char>, later: Seq<InjectorEvent>)
    ensures
        ({
            let injector = InjectorView::initial(label);
            &&& injector.phase.action() == InjectorAction::Open
            &&& injector.next(InjectorEvent::Opened) matches Some(opened)
            &&& opened.phase.action() == InjectorAction::Connect
            &&& opened.path == socket_path_of(label)
            &&& opened.next(InjectorEvent::ConnectFailed) matches Some(refused)
            &&& refused.phase.action() == InjectorAction::Abort(Failure::Connect)
            &&& refused.phase.run(later) == InjectorPhase::Failed(Failure::Connect)
        }),
{
    lemma_injector_over_is_final(InjectorPhase::Failed(Failure::Connect), later);
}

/// An injector relays, and ends in success, only after a connection was
/// confirmed to it: success is never silent.
pub proof fn lemma_success_needs_connection(events: Seq<InjectorEvent>)
    ensures
        ({
            let after = InjectorPhase::Opening.run(events);
            &&& after is Relaying || after is Done ==> events.contains(InjectorEvent::Connected)
            &&& after is Done ==> events.contains(InjectorEvent::RelayEnded)
            &&& after matches InjectorPhase::Failed(Failure::Transport(_, _)) ==> events.contains(
                InjectorEvent::Connected,
            )
        }),
    decreases events.len(),
{
    if events.len() > 0 {
        lemma_success_needs_connection(events.drop_last());
    }
}

} // verus!
