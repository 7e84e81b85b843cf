//! The relay loop: a one-way copy from one source to one sink.
//!
//! The loop asks for a chunk, hands each chunk that is not empty to the sink, and
//! ends when the source is exhausted or when either side fails. It never retries
//! and never reorders. The caller does the reading and the writing and reports
//! the outcome of each; the loop decides what to do next.

use vstd::prelude::*;
use crate::failure::Failure;
use crate::lane::{Lane, Side};

verus! {

/// Where a relay loop stands.
#[derive(Clone, Copy, Debug, PartialEq, Eq, Structural)]
pub enum RelayPhase {
    /// Waiting for the source.
    Reading,
    /// Waiting for the sink to take the pending chunk.
    Sending,
    /// The source is exhausted and everything read was handed on.
    Finished,
    /// One side failed; the loop is over.
    Failed(Side),
}

/// What the caller of a relay loop has to do next.
#[derive(Clone, Copy, Debug, PartialEq, Eq, Structural)]
pub enum RelayAction {
    /// Take the next chunk from the source.
    Read,
    /// Hand the pending chunk to the sink, all of it.
    Send,
    /// End the loop: the source is exhausted.
    Stop,
    /// End the loop with a failure.
    Abort(Failure),
}

/// What the caller of a relay loop reports back.
#[derive(Debug, PartialEq, Eq)]
pub enum RelayEvent {
    /// The source gave these bytes. An empty chunk means that it is exhausted.
    Chunk(Vec<u8>),
    /// The source is exhausted.
    EndOfStream,
    /// The source could not be read.
    ReadFailed,
    /// The sink took the pending chunk.
    Sent,
    /// The sink refused the pending chunk.
    SendFailed,
}

/// A relay loop as the contracts see it.
#[verifier::ext_equal]
pub struct RelayView {
    pub lane: Lane,
    pub phase: RelayPhase,
    /// The chunk that waits for the sink.
    pub pending: Seq<u8>,
    /// Every byte taken from the source so far, in the order taken.
    pub received: Seq<u8>,
    /// Every byte the sink has taken so far, in the order taken.
    pub forwarded: Seq<u8>,
}

impl RelayView {
    /// A loop that has not read anything yet.
    pub open spec fn initial(lane: Lane) -> RelayView {
        RelayView {
            lane,
            phase: RelayPhase::Reading,
            pending: Seq::empty(),
            received: Seq::empty(),
            forwarded: Seq::empty(),
        }
    }

    /// What was read is what was handed on, followed by what still waits; and a
    /// chunk waits exactly while the sink is being waited for, or has refused it.
    pub open spec fn wf(self) -> bool {
        &&& self.received == self.forwarded + self.pending
        &&& self.pending.len() > 0 <==> (self.phase == RelayPhase::Sending || self.phase
            == RelayPhase::Failed(Side::Write))
    }

    /// Whether the loop has ended.
    pub open spec fn is_over(self) -> bool {
        self.phase is Finished || self.phase is Failed
    }

    /// What the caller has to do in this state.
    pub open spec fn action(self) -> RelayAction {
        match self.phase {
            RelayPhase::Reading => RelayAction::Read,
            RelayPhase::Sending => RelayAction::Send,
            RelayPhase::Finished => RelayAction::Stop,
            RelayPhase::Failed(side) => RelayAction::Abort(Failure::Transport(self.lane, side)),
        }
    }

    /// The state after `event`, or `None` where the event answers nothing that
    /// the loop has asked for.
    pub open spec fn next(self, event: RelayEvent) -> Option<RelayView> {
        match self.phase {
            RelayPhase::Reading => match event {
                RelayEvent::Chunk(data) => if data@.len() == 0 {
                    Some(RelayView { phase: RelayPhase::Finished, ..self })
                } else {
                    Some(
                        RelayView {
                            phase: RelayPhase::Sending,
                            pending: data@,
                            received: self.received + data@,
                            ..self
                        },
                    )
                },
                RelayEvent::EndOfStream => Some(RelayView { phase: RelayPhase::Finished, ..self }),
                RelayEvent::ReadFailed => Some(
                    RelayView { phase: RelayPhase::Failed(Side::Read), ..self },
                ),
                _ => None,
            },
            RelayPhase::Sending => match event {
                RelayEvent::Sent => Some(
                    RelayView {
                        phase: RelayPhase::Reading,
                        pending: Seq::empty(),
                        forwarded: self.forwarded + self.pending,
                        ..self
                    },
                ),
                RelayEvent::SendFailed => Some(
                    RelayView { phase: RelayPhase::Failed(Side::Write), ..self },
                ),
                _ => None,
            },
            _ => None,
        }
    }

    /// The state after a whole history of events. An event that answers nothing
    /// leaves the state as it is.
    pub open spec fn run(self, events: Seq<RelayEvent>) -> RelayView
        decreases events.len(),
    {
        if events.len() == 0 {
            self
        } else {
            let before = self.run(events.drop_last());
            match before.next(events.last()) {
                Some(after) => after,
                None => before,
            }
        }
    }
}

/// A relay loop.
pub struct Relay {
    lane: Lane,
    phase: RelayPhase,
    pending: Vec<u8>,
    received: Ghost<Seq<u8>>,
    forwarded: Ghost<Seq<u8>>,
}

impl View for Relay {
    type V = RelayView;

    closed spec fn view(&self) -> RelayView {
        RelayView {
            lane: self.lane,
            phase: self.phase,
            pending: self.pending@,
            received: self.received@,
            forwarded: self.forwarded@,
        }
    }
}

impl Relay {
    /// A loop on `lane` that has not read anything yet. Its first action is to
    /// read.
    pub fn new(lane: Lane) -> (relay: Relay)
        ensures
            relay@ == RelayView::initial(lane),
    {
        Relay {
            lane,
            phase: RelayPhase::Reading,
            pending: Vec::new(),
            received: Ghost(Seq::empty()),
            forwarded: Ghost(Seq::empty()),
        }
    }

    /// The lane that the loop runs on.
    pub fn lane(&self) -> (lane: Lane)
        ensures
            lane == self@.lane,
    {
        self.lane
    }

    /// Where the loop stands.
    pub fn phase(&self) -> (phase: RelayPhase)
        ensures
            phase == self@.phase,
    {
        self.phase
    }

    /// The chunk that waits for the sink; empty unless the loop waits for the
    /// sink or the sink has refused the chunk.
    pub fn pending(&self) -> (chunk: &Vec<u8>)
        ensures
            chunk@ == self@.pending,
    {
        &self.pending
    }

    /// What the caller has to do now.
    pub fn action(&self) -> (action: RelayAction)
        ensures
            action == self@.action(),
    {
        match self.phase {
            RelayPhase::Reading => RelayAction::Read,
            RelayPhase::Sending => RelayAction::Send,
            RelayPhase::Finished => RelayAction::Stop,
            RelayPhase::Failed(side) => RelayAction::Abort(Failure::Transport(self.lane, side)),
        }
    }

    /// Whether the loop has ended, in success or in failure.
    pub fn is_over(&self) -> (over: bool)
        ensures
            over == self@.is_over(),
    {
        match self.phase {
            RelayPhase::Finished => true,
            RelayPhase::Failed(_) => true,
            _ => false,
        }
    }

    /// Takes in what the caller reports and says what to do next.
    ///
    /// Returns `None`, and changes nothing, where the event answers nothing that
    /// the loop has asked for; a loop that has ended accepts no event at all.
    pub fn step(&mut self, event: RelayEvent) -> (action: Option<RelayAction>)
        ensures
            match old(self)@.next(event) {
                Some(after) => final(self)@ == after && action == Some(after.action()),
                None => final(self)@ == old(self)@ && action.is_none(),
            },
    {
        match self.phase {
            RelayPhase::Reading => match event {
                RelayEvent::Chunk(data) => {
                    if data.len() == 0 {
                        self.phase = RelayPhase::Finished;
                    } else {
                        self.received = Ghost(self.received@ + data@);
                        self.pending = data;
                        self.phase = RelayPhase::Sending;
                    }
                },
                RelayEvent::EndOfStream => {
                    self.phase = RelayPhase::Finished;
                },
                RelayEvent::ReadFailed => {
                    self.phase = RelayPhase::Failed(Side::Read);
                },
                _ => {
                    return None;
                },
            },
            RelayPhase::Sending => match event {
                RelayEvent::Sent => {
                    self.forwarded = Ghost(self.forwarded@ + self.pending@);
                    self.pending = Vec::new();
                    self.phase = RelayPhase::Reading;
                },
                RelayEvent::SendFailed => {
                    self.phase = RelayPhase::Failed(Side::Write);
                },
                _ => {
                    return None;
                },
            },
            _ => {
                return None;
            },
        }
        Some(self.action())
    }
}

/// The bookkeeping of a relay loop survives every event.
pub proof fn lemma_step_keeps_wf(relay: RelayView, event: RelayEvent)
    requires
        relay.wf(),
    ensures
        relay.next(event) matches Some(after) ==> after.wf() && after.lane == relay.lane,
{
}

/// Whatever the caller reports, and in whatever order, the bookkeeping of a relay
/// loop holds: the loop can be in no other state.
pub proof fn lemma_run_keeps_wf(relay: RelayView, events: Seq<RelayEvent>)
    requires
        relay.wf(),
    ensures
        relay.run(events).wf(),
        relay.run(events).lane == relay.lane,
    decreases events.len(),
{
    if events.len() > 0 {
        lemma_run_keeps_wf(relay, events.drop_last());
        lemma_step_keeps_wf(relay.run(events.drop_last()), events.last());
    }
}

/// A relay loop keeps the order of its source: at every moment the sink has
/// taken a prefix of what was read, and a loop that finished has handed on
/// everything that it read.
pub proof fn lemma_order_kept(lane: Lane, events: Seq<RelayEvent>)
    ensures
        ({
            let relay = RelayView::initial(lane).run(events);
            &&& relay.forwarded.is_prefix_of(relay.received)
            &&& relay.phase is Finished ==> relay.forwarded == relay.received
            &&& relay.phase == RelayPhase::Failed(Side::Read) ==> relay.forwarded == relay.received
        }),
{
    lemma_run_keeps_wf(RelayView::initial(lane), events);
}

/// A loop that has ended stays as it is: nothing is retried.
pub proof fn lemma_over_is_final(relay: RelayView, events: Seq<RelayEvent>)
    requires
        relay.is_over(),
    ensures
        relay.run(events) == relay,
    decreases events.len(),
{
    if events.len() > 0 {
        lemma_over_is_final(relay, events.drop_last());
    }
}

/// Two loops in a row keep the order of the first one's source. Where the second
/// loop has so far been given a prefix of what the first one's sink took, the
/// second one's sink has taken a prefix of what the first one read; and where
/// both have finished and nothing was lost in between, it has taken all of it.
pub proof fn lemma_chain_keeps_order(
    first: Lane,
    first_events: Seq<RelayEvent>,
    second: Lane,
    second_events: Seq<RelayEvent>,
)
    requires
        RelayView::initial(second).run(second_events).received.is_prefix_of(
            RelayView::initial(first).run(first_events).forwarded,
        ),
    ensures
        ({
            let a = RelayView::initial(first).run(first_events);
            let b = RelayView::initial(second).run(second_events);
            &&& b.forwarded.is_prefix_of(a.received)
            &&& (a.phase is Finished && b.phase is Finished && b.received == a.forwarded)
                ==> b.forwarded == a.received
        }),
{
    lemma_order_kept(first, first_events);
    lemma_order_kept(second, second_events);
}

} // verus!
