//! The host: owner of one endpoint and one child.
//!
//! The host claims the endpoint's name, replacing an entry left there by an
//! earlier session, launches the child, and starts three relay loops. It waits
//! until the child's output and error streams are both drained; the inbound loop
//! is not waited for, and neither is the child itself. Then it removes the
//! endpoint's name and exits. Any failure on the way ends the host at once.
//!
//! The caller performs each action and reports its outcome as an event.
//!
//! Known limits, kept on purpose:
//! - Probing and replacing a name are two steps. Two hosts that start at the
//!   same moment under one label can take the name from each other; keeping
//!   labels apart is the callers' business.
//! - What the inbound loop holds when the output and the error loop have ended
//!   is dropped: the host does not wait for it to be delivered.
//! - A failure of any relay loop ends the whole host, and so does a failure to
//!   remove the endpoint's name at the end. A host that fails after it created
//!   the endpoint leaves the name behind.
//! - Nothing times out. A child that keeps its output or error stream open
//!   keeps the host waiting.

use vstd::prelude::*;
use crate::endpoint::{socket_path, socket_path_of};
use crate::failure::{Failure, FailureClass};
use crate::lane::{Lane, Pipe, Side};
use crate::relay::{Relay, RelayPhase};

verus! {

/// Where a host stands.
#[derive(Clone, Copy, Debug, PartialEq, Eq, Structural)]
pub enum HostPhase {
    /// Asking whether an entry exists under the endpoint's name.
    Probing,
    /// Removing the entry that an earlier session left behind.
    Replacing,
    /// Creating the endpoint.
    Binding,
    /// Launching the child.
    Spawning,
    /// Starting the three relay loops.
    Starting,
    /// Relaying. Each flag says whether that loop is still running.
    Relaying { inbound_open: bool, output_open: bool, error_open: bool },
    /// Removing the endpoint's name.
    Destroying,
    /// Done: the endpoint is gone and the host exits with code 0.
    Exited,
    /// Over, with a failure.
    Failed(Failure),
}

/// What the caller of a host has to do next.
#[derive(Clone, Copy, Debug, PartialEq, Eq, Structural)]
pub enum HostAction {
    /// Find out whether an entry exists under the endpoint's name.
    Probe,
    /// Remove the entry under the endpoint's name.
    RemoveStale,
    /// Create the endpoint under its name.
    Bind,
    /// Launch the program with its arguments, all three streams piped.
    Spawn,
    /// Start the inbound, output and error relay loops.
    StartRelays,
    /// Wait for a relay loop to end.
    Wait,
    /// Remove the endpoint's name.
    Destroy,
    /// Exit with code 0.
    Exit,
    /// Give up and report the failure.
    Abort(Failure),
}

/// What the caller of a host reports back.
#[derive(Clone, Copy, Debug, PartialEq, Eq, Structural)]
pub enum HostEvent {
    /// Nothing exists under the endpoint's name.
    EndpointAbsent,
    /// An entry exists under the endpoint's name.
    EndpointPresent,
    /// The entry was removed.
    StaleRemoved,
    /// The entry could not be removed.
    StaleRemovalFailed,
    /// The endpoint exists now.
    Bound,
    /// The endpoint could not be created.
    BindFailed,
    /// The child runs and its three streams are at hand.
    Spawned,
    /// The child could not be launched.
    SpawnFailed,
    /// The child runs but this stream of it is missing.
    PipeMissing(Pipe),
    /// The three relay loops run.
    RelaysStarted,
    /// The loop on this lane saw the end of its source.
    RelayEnded(Lane),
    /// The loop on this lane failed on this side.
    RelayFailed(Lane, Side),
    /// The endpoint's name is gone.
    Destroyed,
    /// The endpoint's name could not be removed.
    DestroyFailed,
}

impl HostPhase {
    /// While relaying, the output or the error loop still runs: once both have
    /// ended the host moves on.
    pub open spec fn wf(self) -> bool {
        self matches HostPhase::Relaying { output_open, error_open, .. } ==> output_open
            || error_open
    }

    /// Whether the host is over.
    pub open spec fn is_over(self) -> bool {
        self is Exited || self is Failed
    }

    /// What the caller has to do in this phase.
    pub open spec fn action(self) -> HostAction {
        match self {
            HostPhase::Probing => HostAction::Probe,
            HostPhase::Replacing => HostAction::RemoveStale,
            HostPhase::Binding => HostAction::Bind,
            HostPhase::Spawning => HostAction::Spawn,
            HostPhase::Starting => HostAction::StartRelays,
            HostPhase::Relaying { .. } => HostAction::Wait,
            HostPhase::Destroying => HostAction::Destroy,
            HostPhase::Exited => HostAction::Exit,
            HostPhase::Failed(failure) => HostAction::Abort(failure),
        }
    }

    /// Whether the loop on `lane` still runs.
    pub open spec fn lane_open(self, lane: Lane) -> bool {
        match self {
            HostPhase::Relaying { inbound_open, output_open, error_open } => match lane {
                Lane::Inject => false,
                Lane::Inbound => inbound_open,
                Lane::Output => output_open,
                Lane::Error => error_open,
            },
            _ => false,
        }
    }

    /// The phase while relaying after the loop on `lane` has ended. With the
    /// output and the error loop both ended the relaying is over, whatever the
    /// inbound loop does.
    pub open spec fn without_lane(self, lane: Lane) -> HostPhase {
        match self {
            HostPhase::Relaying { inbound_open, output_open, error_open } => {
                let inbound_open = inbound_open && lane != Lane::Inbound;
                let output_open = output_open && lane != Lane::Output;
                let error_open = error_open && lane != Lane::Error;
                if output_open || error_open {
                    HostPhase::Relaying { inbound_open, output_open, error_open }
                } else {
                    HostPhase::Destroying
                }
            },
            _ => self,
        }
    }

    /// The phase after `event`, or `None` where the event answers nothing that
    /// the host has asked for.
    pub open spec fn next(self, event: HostEvent) -> Option<HostPhase> {
        match self {
            HostPhase::Probing => match event {
                HostEvent::EndpointAbsent => Some(HostPhase::Binding),
                HostEvent::EndpointPresent => Some(HostPhase::Replacing),
                _ => None,
            },
            HostPhase::Replacing => match event {
                HostEvent::StaleRemoved => Some(HostPhase::Binding),
                HostEvent::StaleRemovalFailed => Some(HostPhase::Failed(Failure::RemoveStale)),
                _ => None,
            },
            HostPhase::Binding => match event {
                HostEvent::Bound => Some(HostPhase::Spawning),
                HostEvent::BindFailed => Some(HostPhase::Failed(Failure::CreateEndpoint)),
                _ => None,
            },
            HostPhase::Spawning => match event {
                HostEvent::Spawned => Some(HostPhase::Starting),
                HostEvent::SpawnFailed => Some(HostPhase::Failed(Failure::Spawn)),
                HostEvent::PipeMissing(pipe) => Some(HostPhase::Failed(Failure::OpenPipe(pipe))),
                _ => None,
            },
            HostPhase::Starting => match event {
                HostEvent::RelaysStarted => Some(
                    HostPhase::Relaying { inbound_open: true, output_open: true, error_open: true },
                ),
                _ => None,
            },
            HostPhase::Relaying { .. } => match event {
                HostEvent::RelayEnded(lane) => if self.lane_open(lane) {
                    Some(self.without_lane(lane))
                } else {
                    None
                },
                HostEvent::RelayFailed(lane, side) => if self.lane_open(lane) {
                    Some(HostPhase::Failed(Failure::Transport(lane, side)))
                } else {
                    None
                },
                _ => None,
            },
            HostPhase::Destroying => match event {
                HostEvent::Destroyed => Some(HostPhase::Exited),
                HostEvent::DestroyFailed => Some(HostPhase::Failed(Failure::Cleanup)),
                _ => None,
            },
            HostPhase::Exited => None,
            HostPhase::Failed(_) => None,
        }
    }

    /// The phase after a whole history of events. An event that answers nothing
    /// leaves the phase as it is.
    pub open spec fn run(self, events: Seq<HostEvent>) -> HostPhase
        decreases events.len(),
    {
        if events.len() == 0 {
            self
        } else {
            let before = self.run(events.drop_last());
            match before.next(events.last()) {
                Some(after) => after,
                None => before,
            }
        }
    }

    /// Whether an entry exists under the endpoint's name after a history of
    /// events, given whether one existed before. Only what the host was told
    /// counts: the answer to its probe, and each removal and creation that was
    /// confirmed to it.
    pub open spec fn name_exists(self, before: bool, events: Seq<HostEvent>) -> bool
        decreases events.len(),
    {
        if events.len() == 0 {
            before
        } else {
            let earlier = self.name_exists(before, events.drop_last());
            if self.run(events.drop_last()).next(events.last()) is Some {
                match events.last() {
                    HostEvent::EndpointAbsent => false,
                    HostEvent::EndpointPresent => true,
                    HostEvent::StaleRemoved => false,
                    HostEvent::Bound => true,
                    HostEvent::Destroyed => false,
                    _ => earlier,
                }
            } else {
                earlier
            }
        }
    }
}

/// A host as the contracts see it.
#[verifier::ext_equal]
pub struct HostView {
    /// The endpoint's name.
    pub path: Seq<char>,
    /// The program to launch.
    pub program: Seq<char>,
    /// The program's arguments.
    pub args: Seq<Seq<char>>,
    pub phase: HostPhase,
}

impl HostView {
    /// A host for `label` that has done nothing yet.
    pub open spec fn initial(label: Seq<char>, program: Seq<char>, args: Seq<Seq<char>>) -> HostView {
        HostView { path: socket_path_of(label), program, args, phase: HostPhase::Probing }
    }

    /// The state after `event`, or `None` where the event answers nothing that
    /// the host has asked for. Only the phase ever changes.
    pub open spec fn next(self, event: HostEvent) -> Option<HostView> {
        match self.phase.next(event) {
            Some(phase) => Some(HostView { phase, ..self }),
            None => None,
        }
    }
}

/// A host.
pub struct Host {
    path: String,
    program: String,
    args: Vec<String>,
    phase: HostPhase,
}

impl View for Host {
    type V = HostView;

    closed spec fn view(&self) -> HostView {
        HostView {
            path: self.path@,
            program: self.program@,
            args: self.args.deep_view(),
            phase: self.phase,
        }
    }
}

impl HostEvent {
    /// How a relay loop that has ended is reported to the host.
    pub open spec fn of_relay_spec(lane: Lane, phase: RelayPhase) -> Option<HostEvent> {
        match phase {
            RelayPhase::Finished => Some(HostEvent::RelayEnded(lane)),
            RelayPhase::Failed(side) => Some(HostEvent::RelayFailed(lane, side)),
            _ => None,
        }
    }

    /// The event by which a relay loop that has ended is reported to the host;
    /// `None` while the loop still runs.
    pub fn of_relay(relay: &Relay) -> (event: Option<HostEvent>)
        ensures
            event == HostEvent::of_relay_spec(relay@.lane, relay@.phase),
    {
        match relay.phase() {
            RelayPhase::Finished => Some(HostEvent::RelayEnded(relay.lane())),
            RelayPhase::Failed(side) => Some(HostEvent::RelayFailed(relay.lane(), side)),
            _ => None,
        }
    }
}

impl Host {
    /// A host for `label` that is to run `program` with `args`. It has done
    /// nothing yet; its first action is to probe the endpoint's name.
    pub fn new(label: &str, program: String, args: Vec<String>) -> (host: Host)
        ensures
            host@ == HostView::initial(label@, program@, args.deep_view()),
    {
        Host { path: socket_path(label), program, args, phase: HostPhase::Probing }
    }

    /// The endpoint's name.
    pub fn path(&self) -> (path: &str)
        ensures
            path@ == self@.path,
    {
        self.path.as_str()
    }

    /// The program to launch.
    pub fn program(&self) -> (program: &str)
        ensures
            program@ == self@.program,
    {
        self.program.as_str()
    }

    /// The program's arguments.
    pub fn args(&self) -> (args: &Vec<String>)
        ensures
            args.deep_view() == self@.args,
    {
        &self.args
    }

    /// Where the host stands.
    pub fn phase(&self) -> (phase: HostPhase)
        ensures
            phase == self@.phase,
    {
        self.phase
    }

    /// What the caller has to do now.
    pub fn action(&self) -> (action: HostAction)
        ensures
            action == self@.phase.action(),
    {
        phase_action(self.phase)
    }

    /// Takes in what the caller reports and says what to do next.
    ///
    /// Returns `None`, and changes nothing, where the event answers nothing that
    /// the host has asked for; a host that is over accepts no event at all.
    pub fn step(&mut self, event: HostEvent) -> (action: Option<HostAction>)
        ensures
            match old(self)@.next(event) {
                Some(after) => final(self)@ == after && action == Some(after.phase.action()),
                None => final(self)@ == old(self)@ && action.is_none(),
            },
    {
        match phase_next(self.phase, event) {
            Some(phase) => {
                self.phase = phase;
                Some(phase_action(phase))
            },
            None => None,
        }
    }
}

/// What the caller has to do in `phase`.
pub fn phase_action(phase: HostPhase) -> (action: HostAction)
    ensures
        action == phase.action(),
{
    match phase {
        HostPhase::Probing => HostAction::Probe,
        HostPhase::Replacing => HostAction::RemoveStale,
        HostPhase::Binding => HostAction::Bind,
        HostPhase::Spawning => HostAction::Spawn,
        HostPhase::Starting => HostAction::StartRelays,
        HostPhase::Relaying { .. } => HostAction::Wait,
        HostPhase::Destroying => HostAction::Destroy,
        HostPhase::Exited => HostAction::Exit,
        HostPhase::Failed(failure) => HostAction::Abort(failure),
    }
}

/// The phase that follows `phase` on `event`; `None` where the event answers
/// nothing that a host in `phase` has asked for.
pub fn phase_next(phase: HostPhase, event: HostEvent) -> (after: Option<HostPhase>)
    ensures
        after == phase.next(event),
{
    match phase {
        HostPhase::Probing => match event {
            HostEvent::EndpointAbsent => Some(HostPhase::Binding),
            HostEvent::EndpointPresent => Some(HostPhase::Replacing),
            _ => None,
        },
        HostPhase::Replacing => match event {
            HostEvent::StaleRemoved => Some(HostPhase::Binding),
            HostEvent::StaleRemovalFailed => Some(HostPhase::Failed(Failure::RemoveStale)),
            _ => None,
        },
        HostPhase::Binding => match event {
            HostEvent::Bound => Some(HostPhase::Spawning),
            HostEvent::BindFailed => Some(HostPhase::Failed(Failure::CreateEndpoint)),
            _ => None,
        },
        HostPhase::Spawning => match event {
            HostEvent::Spawned => Some(HostPhase::Starting),
            HostEvent::SpawnFailed => Some(HostPhase::Failed(Failure::Spawn)),
            HostEvent::PipeMissing(pipe) => Some(HostPhase::Failed(Failure::OpenPipe(pipe))),
            _ => None,
        },
        HostPhase::Starting => match event {
            HostEvent::RelaysStarted => Some(
                HostPhase::Relaying { inbound_open: true, output_open: true, error_open: true },
            ),
            _ => None,
        },
        HostPhase::Relaying { inbound_open, output_open, error_open } => {
            let (lane, failed) = match event {
                HostEvent::RelayEnded(lane) => (lane, None),
                HostEvent::RelayFailed(lane, side) => (lane, Some(side)),
                _ => {
                    return None;
                },
            };
            let open = match lane {
                Lane::Inject => false,
                Lane::Inbound => inbound_open,
                Lane::Output => output_open,
                Lane::Error => error_open,
            };
            if !open {
                return None;
            }
            if let Some(side) = failed {
                return Some(HostPhase::Failed(Failure::Transport(lane, side)));
            }
            let inbound_open = inbound_open && lane != Lane::Inbound;
            let output_open = output_open && lane != Lane::Output;
            let error_open = error_open && lane != Lane::Error;
            if output_open || error_open {
                Some(HostPhase::Relaying { inbound_open, output_open, error_open })
            } else {
                Some(HostPhase::Destroying)
            }
        },
        HostPhase::Destroying => match event {
            HostEvent::Destroyed => Some(HostPhase::Exited),
            HostEvent::DestroyFailed => Some(HostPhase::Failed(Failure::Cleanup)),
            _ => None,
        },
        HostPhase::Exited => None,
        HostPhase::Failed(_) => None,
    }
}

impl HostPhase {
    /// Whether an entry is to be found under the endpoint's name when the host
    /// stands in this phase, given whether one existed before the host began.
    /// A host that failed leaves the name behind, unless the failure was that
    /// the endpoint could not be created.
    pub open spec fn leaves_name(self, before: bool) -> bool {
        match self {
            HostPhase::Probing => before,
            HostPhase::Replacing => true,
            HostPhase::Binding => false,
            HostPhase::Exited => false,
            HostPhase::Failed(failure) => failure != Failure::CreateEndpoint,
            _ => true,
        }
    }

    /// How many events a host in this phase can accept at most before it is
    /// over.
    pub open spec fn steps_left(self) -> nat {
        match self {
            HostPhase::Probing => 9,
            HostPhase::Replacing => 8,
            HostPhase::Binding => 7,
            HostPhase::Spawning => 6,
            HostPhase::Starting => 5,
            HostPhase::Relaying { inbound_open, output_open, error_open } => {
                let inbound: nat = if inbound_open { 1 } else { 0 };
                let output: nat = if output_open { 1 } else { 0 };
                let error: nat = if error_open { 1 } else { 0 };
                1 + inbound + output + error
            },
            HostPhase::Destroying => 1,
            HostPhase::Exited => 0,
            HostPhase::Failed(_) => 0,
        }
    }

    /// Whether the loop on `lane` still runs after the loops named in `ended`
    /// have ended.
    pub open spec fn still_open(self, lane: Lane, ended: Seq<HostEvent>) -> bool {
        self.lane_open(lane) && !ended.contains(HostEvent::RelayEnded(lane))
    }
}

/// While relaying, the output or the error loop still runs, whatever the caller
/// reports and in whatever order.
pub proof fn lemma_host_wf_kept(phase: HostPhase, events: Seq<HostEvent>)
    requires
        phase.wf(),
    ensures
        phase.run(events).wf(),
    decreases events.len(),
{
    if events.len() > 0 {
        lemma_host_wf_kept(phase, events.drop_last());
    }
}

/// Every event that a host accepts brings it nearer to its end: it cannot go
/// round in circles, and from the first probe to the exit it accepts nine
/// events at most.
pub proof fn lemma_host_progress(phase: HostPhase, event: HostEvent)
    requires
        phase.wf(),
    ensures
        phase.next(event) matches Some(after) ==> after.steps_left() < phase.steps_left(),
        phase.is_over() <==> phase.steps_left() == 0,
{
}

/// A host that is over stays as it is: nothing is retried and nothing is resumed.
pub proof fn lemma_host_over_is_final(phase: HostPhase, events: Seq<HostEvent>)
    requires
        phase.is_over(),
    ensures
        phase.run(events) == phase,
    decreases events.len(),
{
    if events.len() > 0 {
        lemma_host_over_is_final(phase, events.drop_last());
    }
}

/// An entry left under the endpoint's name does not stop a host. The host asks
/// for its removal, and once that is confirmed it is in the very state of a
/// host that found nothing there: about to create the endpoint under the name
/// that belongs to its label.
pub proof fn lemma_stale_name_replaced(label: Seq<char>, program: Seq<char>, args: Seq<Seq<char>>)
    ensures
        ({
            let host = HostView::initial(label, program, args);
            &&& host.phase.action() == HostAction::Probe
            &&& host.next(HostEvent::EndpointPresent) matches Some(found)
            &&& found.phase.action() == HostAction::RemoveStale
            &&& found.path == socket_path_of(label)
            &&& found.next(HostEvent::StaleRemoved) matches Some(cleared)
            &&& cleared.phase.action() == HostAction::Bind
            &&& cleared.path == socket_path_of(label)
            &&& host.next(HostEvent::EndpointAbsent) == Some(cleared)
        }),
{
}

/// Once the output and the error loop have both ended, the host removes the
/// endpoint's name, and until then it waits. Neither the order in which the
/// loops end nor the inbound loop makes a difference, and nothing is asked about
/// the child.
pub proof fn lemma_drain_and_destroy(phase: HostPhase, ended: Seq<HostEvent>)
    requires
        phase is Relaying,
        phase.wf(),
        forall|i: int| 0 <= i < ended.len() ==> ended[i] is RelayEnded,
    ensures
        ({
            let after = phase.run(ended);
            let output_open = phase.still_open(Lane::Output, ended);
            let error_open = phase.still_open(Lane::Error, ended);
            if output_open || error_open {
                &&& after == HostPhase::Relaying {
                    inbound_open: phase.still_open(Lane::Inbound, ended),
                    output_open,
                    error_open,
                }
                &&& after.action() == HostAction::Wait
            } else {
                &&& after == HostPhase::Destroying
                &&& after.action() == HostAction::Destroy
            }
        }),
    decreases ended.len(),
{
    if ended.len() > 0 {
        let earlier = ended.drop_last();
        let last = ended.last();
        lemma_drain_and_destroy(phase, earlier);
        assert forall|lane: Lane|
            ended.contains(HostEvent::RelayEnded(lane)) <==> (earlier.contains(
                HostEvent::RelayEnded(lane),
            ) || last == HostEvent::RelayEnded(lane)) by {
            let wanted = HostEvent::RelayEnded(lane);
            if ended.contains(wanted) {
                let i = choose|i: int| 0 <= i < ended.len() && ended[i] == wanted;
                if i < earlier.len() {
                    assert(earlier[i] == wanted);
                }
            }
            if earlier.contains(wanted) {
                let i = choose|i: int| 0 <= i < earlier.len() && earlier[i] == wanted;
                assert(ended[i] == wanted);
            }
            if last == wanted {
                assert(ended[ended.len() - 1] == wanted);
            }
        }
    }
}

/// The host exits normally on one occasion only: when it is told that the
/// endpoint's name is gone, after it asked for that.
pub proof fn lemma_exit_follows_destroy(phase: HostPhase, event: HostEvent)
    ensures
        phase.next(event) == Some(HostPhase::Exited) <==> (phase == HostPhase::Destroying && event
            == HostEvent::Destroyed),
        phase.next(event) == Some(HostPhase::Destroying) ==> phase is Relaying && event
            is RelayEnded,
{
}

/// After a normal exit no entry exists under the endpoint's name, whatever was
/// there before the host began. More generally the phase alone tells whether an
/// entry exists: none between the removal of an old one and the creation of the
/// endpoint, one from then on until the host has removed it.
pub proof fn lemma_exit_leaves_no_name(before: bool, events: Seq<HostEvent>)
    ensures
        ({
            let after = HostPhase::Probing.run(events);
            &&& HostPhase::Probing.name_exists(before, events) == after.leaves_name(before)
            &&& after is Exited ==> !HostPhase::Probing.name_exists(before, events)
        }),
    decreases events.len(),
{
    if events.len() > 0 {
        lemma_exit_leaves_no_name(before, events.drop_last());
    }
}

/// Each kind of failure belongs to one stretch of the host's life: a setup
/// failure ends the host before any relay loop has started, a transport failure
/// while it relays, and a cleanup failure while it removes the endpoint's name.
pub proof fn lemma_failure_class_by_phase(phase: HostPhase, event: HostEvent)
    ensures
        phase.next(event) matches Some(HostPhase::Failed(failure)) ==> {
            &&& failure.class_of() == FailureClass::Setup <==> (phase is Probing || phase
                is Replacing || phase is Binding || phase is Spawning)
            &&& failure.class_of() == FailureClass::Transport <==> phase is Relaying
            &&& failure.class_of() == FailureClass::Cleanup <==> phase is Destroying
        },
{
}

} // verus!
