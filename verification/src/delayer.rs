//! How long packets are held back for the block engine.
//!
//! While a session with the block engine is running, each batch of packets goes to the block
//! engine at once and to the banking stage only later: after [`DELAY_PACKET_BATCHES_MS`], and not
//! before the slot of this validator has run for [`SLOT_START_DELAY_MS`].
use vstd::multiset::Multiset;
use vstd::prelude::*;

use crate::slot::{RunningLeaderStatus, SlotBoundaryStatus};

verus! {

/// How long a batch is held back.
pub const DELAY_PACKET_BATCHES_MS: u64 = 300;

/// How long the first moments of a slot last.
pub const SLOT_START_DELAY_MS: u64 = 20;

/// The nanoseconds in a millisecond.
pub const NANOS_PER_MS: u64 = 1_000_000;

/// A batch that is held back, and the moment at which it may be released.
#[derive(Clone, Debug, PartialEq, Eq)]
pub struct Held<B> {
    pub batch: B,
    pub deadline: u64,
}

/// What the delayer has seen, of batches of type `B`. Times are nanoseconds since one common
/// moment.
#[derive(Clone, Debug, PartialEq, Eq)]
pub enum DelayerEvent<B> {
    /// It is about to wait for the next event; `exit` says whether the validator is going down.
    Ready { exit: bool },
    /// Block production began or ended.
    SlotBoundaryChanged { boundary: SlotBoundaryStatus, now: u64 },
    /// Nothing is known of block production any more.
    SlotBoundaryClosed,
    /// The first moments of the slot are over.
    SlotStartElapsed,
    /// The time of a batch that was held back has come.
    Expired(Held<B>),
    /// The batch was sent to the banking stage, which took it or did not; `queue_empty` says
    /// whether it was the last one that was held back.
    Released { sent: bool, queue_empty: bool },
    /// The timer of the batches that are held back failed.
    TimerFailed,
    /// A batch came in.
    Received { batch: B, now: u64 },
    /// The batch was offered to the block engine's session, which took it or did not.
    Forwarded { sent: bool },
}

/// Why the delayer stops.
#[derive(Clone, Copy, Debug, PartialEq, Eq, Structural)]
pub enum DelayerStop {
    Exit,
    SlotBoundaryClosed,
    BankingClosed,
    PbsClosed,
}

/// What the delayer does next.
#[derive(Clone, Debug, PartialEq, Eq)]
pub enum DelayerAction<B> {
    /// Wait for the next event.
    Wait,
    /// Set the timer that ends the first moments of the slot.
    ArmSlotStart { at: u64 },
    /// Hold a batch back until its deadline, and offer it to the block engine's session with that
    /// deadline.
    Delay(Held<B>),
    /// Send a batch to the banking stage.
    Release(Held<B>),
    /// Stop.
    Stop(DelayerStop),
}

/// The status in which the delayer begins.
pub open spec fn initial_status(boundary: SlotBoundaryStatus) -> RunningLeaderStatus {
    match boundary {
        SlotBoundaryStatus::StandBy => RunningLeaderStatus::StandBy,
        SlotBoundaryStatus::InProgress => RunningLeaderStatus::InProgress,
    }
}

/// Whether batches whose time has come are released.
pub open spec fn releases(status: RunningLeaderStatus) -> bool {
    status == RunningLeaderStatus::InProgress || status == RunningLeaderStatus::Completed
}

/// Whether an event can happen: the timer of the first moments is awaited only while they last,
/// and batches are released only while the status says so.
pub open spec fn awaited<B>(status: RunningLeaderStatus, event: DelayerEvent<B>) -> bool {
    match event {
        DelayerEvent::SlotStartElapsed => status == RunningLeaderStatus::BankStart,
        DelayerEvent::Expired(_) => releases(status),
        DelayerEvent::Released { .. } => releases(status),
        DelayerEvent::TimerFailed => releases(status),
        _ => true,
    }
}

/// Whether the times that follow from an event can be told.
pub open spec fn in_time<B>(event: DelayerEvent<B>) -> bool {
    match event {
        DelayerEvent::SlotBoundaryChanged { now, .. } => now + SLOT_START_DELAY_MS * NANOS_PER_MS
            <= u64::MAX,
        DelayerEvent::Received { now, .. } => now + DELAY_PACKET_BATCHES_MS * NANOS_PER_MS
            <= u64::MAX,
        _ => true,
    }
}

/// Whether a change of block production begins a slot, of which the first moments are then kept.
pub open spec fn begins_slot(status: RunningLeaderStatus, boundary: SlotBoundaryStatus) -> bool {
    &&& boundary == SlotBoundaryStatus::InProgress
    &&& status == RunningLeaderStatus::StandBy || status == RunningLeaderStatus::Completed
}

/// The status after block production began or ended.
pub open spec fn status_at_boundary(
    status: RunningLeaderStatus,
    boundary: SlotBoundaryStatus,
) -> RunningLeaderStatus {
    if begins_slot(status, boundary) {
        RunningLeaderStatus::BankStart
    } else if boundary == SlotBoundaryStatus::StandBy && status == RunningLeaderStatus::BankStart {
        RunningLeaderStatus::StandBy
    } else if boundary == SlotBoundaryStatus::StandBy && status == RunningLeaderStatus::InProgress {
        RunningLeaderStatus::Completed
    } else {
        status
    }
}

/// The status after an event.
pub open spec fn next_status<B>(
    status: RunningLeaderStatus,
    event: DelayerEvent<B>,
) -> RunningLeaderStatus {
    match event {
        DelayerEvent::SlotBoundaryChanged { boundary, .. } => status_at_boundary(status, boundary),
        DelayerEvent::SlotStartElapsed => RunningLeaderStatus::InProgress,
        DelayerEvent::Released { sent: true, queue_empty: true } => if status
            == RunningLeaderStatus::Completed {
            RunningLeaderStatus::StandBy
        } else {
            status
        },
        _ => status,
    }
}

/// A batch that came in at a given moment, with the moment at which it may be released.
pub open spec fn held_back<B>(batch: B, received: u64) -> Held<B> {
    Held { batch, deadline: (received + DELAY_PACKET_BATCHES_MS * NANOS_PER_MS) as u64 }
}

/// What the delayer does after an event.
pub open spec fn next_action<B>(
    status: RunningLeaderStatus,
    event: DelayerEvent<B>,
) -> DelayerAction<B> {
    match event {
        DelayerEvent::Ready { exit: true } => DelayerAction::Stop(DelayerStop::Exit),
        DelayerEvent::SlotBoundaryChanged { boundary, now } => if begins_slot(status, boundary) {
            DelayerAction::ArmSlotStart { at: (now + SLOT_START_DELAY_MS * NANOS_PER_MS) as u64 }
        } else {
            DelayerAction::Wait
        },
        DelayerEvent::SlotBoundaryClosed => DelayerAction::Stop(DelayerStop::SlotBoundaryClosed),
        DelayerEvent::Expired(held) => DelayerAction::Release(held),
        DelayerEvent::Released { sent: false, .. } => DelayerAction::Stop(
            DelayerStop::BankingClosed,
        ),
        DelayerEvent::Received { batch, now } => DelayerAction::Delay(held_back(batch, now)),
        DelayerEvent::Forwarded { sent: false } => DelayerAction::Stop(DelayerStop::PbsClosed),
        _ => DelayerAction::Wait,
    }
}

/// The delayer: it holds batches back, and releases them while its status says so.
#[derive(Clone, Copy, Debug, PartialEq, Eq)]
pub struct Delayer {
    pub status: RunningLeaderStatus,
}

impl Delayer {
    /// A delayer that begins while block production is as given.
    pub fn new(boundary: SlotBoundaryStatus) -> (delayer: Delayer)
        ensures
            delayer.status == initial_status(boundary),
            boundary == SlotBoundaryStatus::InProgress ==> delayer.status
                == RunningLeaderStatus::InProgress,
            boundary == SlotBoundaryStatus::StandBy ==> delayer.status
                == RunningLeaderStatus::StandBy,
    {
        let status = match boundary {
            SlotBoundaryStatus::StandBy => RunningLeaderStatus::StandBy,
            SlotBoundaryStatus::InProgress => RunningLeaderStatus::InProgress,
        };
        Delayer { status }
    }

    /// Whether the timer of the first moments of a slot is awaited.
    pub fn awaits_slot_start(&self) -> (awaits: bool)
        ensures
            awaits == awaited(self.status, DelayerEvent::<()>::SlotStartElapsed),
            awaits <==> self.status == RunningLeaderStatus::BankStart,
    {
        matches!(self.status, RunningLeaderStatus::BankStart)
    }

    /// Whether batches whose time has come are released.
    pub fn awaits_release(&self) -> (awaits: bool)
        ensures
            awaits == releases(self.status),
            awaits <==> self.status == RunningLeaderStatus::InProgress || self.status
                == RunningLeaderStatus::Completed,
    {
        matches!(self.status, RunningLeaderStatus::InProgress | RunningLeaderStatus::Completed)
    }

    /// Takes an event that was awaited, and decides what to do next.
    pub fn delay_packet_batches<B>(&mut self, event: DelayerEvent<B>) -> (action: DelayerAction<B>)
        requires
            awaited(old(self).status, event),
            in_time(event),
        ensures
            final(self).status == next_status(old(self).status, event),
            action == next_action(old(self).status, event),
    {
        match event {
            DelayerEvent::Ready { exit } => {
                if exit {
                    DelayerAction::Stop(DelayerStop::Exit)
                } else {
                    DelayerAction::Wait
                }
            },
            DelayerEvent::SlotBoundaryChanged { boundary, now } => {
                let status = self.status;
                match (status, boundary) {
                    (RunningLeaderStatus::StandBy, SlotBoundaryStatus::InProgress)
                    | (RunningLeaderStatus::Completed, SlotBoundaryStatus::InProgress) => {
                        self.status = RunningLeaderStatus::BankStart;
                        DelayerAction::ArmSlotStart { at: now + SLOT_START_DELAY_MS * NANOS_PER_MS }
                    },
                    (RunningLeaderStatus::BankStart, SlotBoundaryStatus::StandBy) => {
                        self.status = RunningLeaderStatus::StandBy;
                        DelayerAction::Wait
                    },
                    (RunningLeaderStatus::InProgress, SlotBoundaryStatus::StandBy) => {
                        self.status = RunningLeaderStatus::Completed;
                        DelayerAction::Wait
                    },
                    (_, _) => DelayerAction::Wait,
                }
            },
            DelayerEvent::SlotBoundaryClosed => DelayerAction::Stop(
                DelayerStop::SlotBoundaryClosed,
            ),
            DelayerEvent::SlotStartElapsed => {
                self.status = RunningLeaderStatus::InProgress;
                DelayerAction::Wait
            },
            DelayerEvent::Expired(held) => DelayerAction::Release(held),
            DelayerEvent::Released { sent, queue_empty } => {
                if !sent {
                    return DelayerAction::Stop(DelayerStop::BankingClosed);
                }
                if queue_empty && matches!(self.status, RunningLeaderStatus::Completed) {
                    self.status = RunningLeaderStatus::StandBy;
                }
                DelayerAction::Wait
            },
            DelayerEvent::TimerFailed => DelayerAction::Wait,
            DelayerEvent::Received { batch, now } => DelayerAction::Delay(
                Held { batch, deadline: now + DELAY_PACKET_BATCHES_MS * NANOS_PER_MS },
            ),
            DelayerEvent::Forwarded { sent } => {
                if sent {
                    DelayerAction::Wait
                } else {
                    DelayerAction::Stop(DelayerStop::PbsClosed)
                }
            },
        }
    }
}

/// The status after a run of events.
pub open spec fn status_after<B>(
    status: RunningLeaderStatus,
    events: Seq<DelayerEvent<B>>,
) -> RunningLeaderStatus
    decreases events.len(),
{
    if events.len() == 0 {
        status
    } else {
        next_status(status_after(status, events.drop_last()), events.last())
    }
}

/// Whether each event of a run was awaited when it happened.
pub open spec fn awaited_run<B>(status: RunningLeaderStatus, events: Seq<DelayerEvent<B>>) -> bool {
    forall|i: int|
        #![trigger events[i]]
        0 <= i < events.len() ==> awaited(status_after(status, events.take(i)), events[i])
}

/// What was last heard of block production.
pub open spec fn boundary_after<B>(
    boundary: SlotBoundaryStatus,
    events: Seq<DelayerEvent<B>>,
) -> SlotBoundaryStatus
    decreases events.len(),
{
    if events.len() == 0 {
        boundary
    } else {
        match events.last() {
            DelayerEvent::SlotBoundaryChanged { boundary, .. } => boundary,
            _ => boundary_after(boundary, events.drop_last()),
        }
    }
}

/// Whether a status belongs to a slot that is running.
pub open spec fn within_slot(status: RunningLeaderStatus) -> bool {
    status == RunningLeaderStatus::BankStart || status == RunningLeaderStatus::InProgress
}

/// To hear the same of block production twice is to hear it once.
pub proof fn boundary_is_idempotent(status: RunningLeaderStatus, boundary: SlotBoundaryStatus)
    ensures
        status_at_boundary(status_at_boundary(status, boundary), boundary) == status_at_boundary(
            status,
            boundary,
        ),
        !begins_slot(status_at_boundary(status, boundary), boundary),
{
}

/// After any run, the delayer takes a slot to be running if and only if block production was last
/// heard to be in progress.
pub proof fn status_follows_block_production<B>(
    boundary: SlotBoundaryStatus,
    events: Seq<DelayerEvent<B>>,
)
    requires
        awaited_run(initial_status(boundary), events),
    ensures
        within_slot(status_after(initial_status(boundary), events)) <==> boundary_after(
            boundary,
            events,
        ) == SlotBoundaryStatus::InProgress,
    decreases events.len(),
{
    if events.len() > 0 {
        let earlier = events.drop_last();
        assert forall|i: int| #![trigger earlier[i]] 0 <= i < earlier.len() implies awaited(
            status_after(initial_status(boundary), earlier.take(i)),
            earlier[i],
        ) by {
            assert(earlier.take(i) == events.take(i));
            assert(earlier[i] == events[i]);
        }
        status_follows_block_production(boundary, earlier);
        assert(events.take(events.len() - 1) == earlier);
        assert(awaited(
            status_after(initial_status(boundary), events.take(events.len() - 1)),
            events[events.len() - 1],
        ));
    }
}

/// A delayer that begins between slots releases nothing until the first moments of a slot are
/// over, whatever else happens.
pub proof fn nothing_is_released_before_slot_start<B>(events: Seq<DelayerEvent<B>>)
    requires
        forall|i: int| 0 <= i < events.len() ==> events[i] != DelayerEvent::<B>::SlotStartElapsed,
    ensures
        !releases(status_after(initial_status(SlotBoundaryStatus::StandBy), events)),
    decreases events.len(),
{
    if events.len() > 0 {
        let earlier = events.drop_last();
        assert forall|i: int| 0 <= i < earlier.len() implies earlier[i]
            != DelayerEvent::<B>::SlotStartElapsed by {
            assert(earlier[i] == events[i]);
        }
        nothing_is_released_before_slot_start(earlier);
        assert(events.last() == events[events.len() - 1]);
    }
}

/// A slot that ends with batches still held back goes on releasing them: the delayer leaves
/// `Completed` only when the last of them has gone, or for the first moments of the next slot.
pub proof fn completed_slot_drains<B>(event: DelayerEvent<B>)
    requires
        awaited(RunningLeaderStatus::Completed, event),
    ensures
        next_status(RunningLeaderStatus::Completed, event) != RunningLeaderStatus::Completed ==> {
            ||| event == (DelayerEvent::<B>::Released { sent: true, queue_empty: true })
            ||| event is SlotBoundaryChanged && event->boundary == SlotBoundaryStatus::InProgress
        },
{
}

/// Every batch that comes in is held back as it is, and offered to the block engine with the very
/// deadline at which it is released.
pub proof fn every_batch_is_delayed<B>(status: RunningLeaderStatus, batch: B, now: u64)
    requires
        in_time(DelayerEvent::Received { batch, now }),
    ensures
        next_status(status, DelayerEvent::Received { batch, now }) == status,
        next_action(status, DelayerEvent::Received { batch, now }) == DelayerAction::Delay(
            Held { batch, deadline: (now + 300_000_000) as u64 },
        ),
{
}

/// An event, and the moment at which it was seen.
#[verifier::reject_recursive_types(B)]
pub struct Moment<B> {
    pub event: DelayerEvent<B>,
    pub now: u64,
}

/// What a run of the delayer has come to, with the queue of the batches that are held back.
#[verifier::ext_equal]
#[verifier::reject_recursive_types(B)]
pub struct DelayerRun<B> {
    pub status: RunningLeaderStatus,
    /// The batches that came in, each with the moment at which it did.
    pub taken: Seq<(B, u64)>,
    /// The batch that is being offered to the block engine's session, or that it did not take.
    pub offering: Option<Held<B>>,
    /// The batches that the block engine's session took.
    pub offered: Seq<Held<B>>,
    /// The batches that are held back.
    pub queue: Multiset<Held<B>>,
    /// The batch that is being sent to the banking stage, or that it did not take, with the moment
    /// at which it left the queue.
    pub releasing: Option<(Held<B>, u64)>,
    /// The batches that the banking stage took, each with the moment at which it left the queue.
    pub released: Seq<(Held<B>, u64)>,
    /// Why the delayer was told to stop, if it was.
    pub stop: Option<DelayerStop>,
}

/// The batches that came in, with the moments at which they may be released.
pub open spec fn with_deadlines<B>(taken: Seq<(B, u64)>) -> Seq<Held<B>> {
    taken.map_values(|one: (B, u64)| held_back(one.0, one.1))
}

/// What was released, without the moments at which it was.
pub open spec fn released_batches<B>(released: Seq<(Held<B>, u64)>) -> Seq<Held<B>> {
    released.map_values(|one: (Held<B>, u64)| one.0)
}

/// One batch, or none.
pub open spec fn at_most_one<B>(one: Option<Held<B>>) -> Seq<Held<B>> {
    match one {
        Some(held) => seq![held],
        None => Seq::empty(),
    }
}

impl<B> DelayerRun<B> {
    /// A run that begins while block production is as given.
    pub open spec fn start(boundary: SlotBoundaryStatus) -> DelayerRun<B> {
        DelayerRun {
            status: initial_status(boundary),
            taken: Seq::empty(),
            offering: None,
            offered: Seq::empty(),
            queue: Multiset::empty(),
            releasing: None,
            released: Seq::empty(),
            stop: None,
        }
    }

    /// Whether an event can be the next one: it is awaited, the outcome of an offer or of a release
    /// is told before anything else happens, and the queue gives back only what it holds, no earlier
    /// than its deadline, and is empty when it says so.
    pub open spec fn awaits(self, moment: Moment<B>) -> bool {
        &&& awaited(self.status, moment.event)
        &&& in_time(moment.event)
        &&& self.offering is Some <==> moment.event is Forwarded
        &&& self.releasing is Some <==> moment.event is Released
        &&& moment.event matches DelayerEvent::Expired(held) ==> {
            &&& self.queue.contains(held)
            &&& held.deadline <= moment.now
        }
        &&& moment.event matches DelayerEvent::Released { queue_empty, .. } ==> queue_empty == (
        self.queue.len() == 0)
    }

    /// The run after one more event, with what the delayer then does.
    pub open spec fn after(self, moment: Moment<B>) -> DelayerRun<B> {
        let action = next_action(self.status, moment.event);
        let next = DelayerRun {
            status: next_status(self.status, moment.event),
            stop: match action {
                DelayerAction::Stop(reason) => Some(reason),
                _ => None,
            },
            ..self
        };
        match (moment.event, action) {
            (DelayerEvent::Received { batch, now }, DelayerAction::Delay(held)) => DelayerRun {
                taken: self.taken.push((batch, now)),
                queue: self.queue.insert(held),
                offering: Some(held),
                ..next
            },
            (DelayerEvent::Forwarded { sent: true }, _) => DelayerRun {
                offered: self.offered + at_most_one(self.offering),
                offering: None,
                ..next
            },
            (DelayerEvent::Expired(_), DelayerAction::Release(held)) => DelayerRun {
                queue: self.queue.remove(held),
                releasing: Some((held, moment.now)),
                ..next
            },
            (DelayerEvent::Released { sent: true, .. }, _) => DelayerRun {
                released: match self.releasing {
                    Some(one) => self.released.push(one),
                    None => self.released,
                },
                releasing: None,
                ..next
            },
            _ => next,
        }
    }

    /// The run after some more events, up to the one on which the delayer stops.
    pub open spec fn after_all(self, moments: Seq<Moment<B>>) -> DelayerRun<B>
        decreases moments.len(),
    {
        if moments.len() == 0 {
            self
        } else {
            let before = self.after_all(moments.drop_last());
            if before.stop is Some {
                before
            } else {
                before.after(moments.last())
            }
        }
    }

    /// Whether each of some more events, up to the one on which the delayer stops, can be the next
    /// one when it happens.
    pub open spec fn awaits_all(self, moments: Seq<Moment<B>>) -> bool
        decreases moments.len(),
    {
        moments.len() == 0 || {
            let before = self.after_all(moments.drop_last());
            &&& self.awaits_all(moments.drop_last())
            &&& before.stop is Some || before.awaits(moments.last())
        }
    }

    /// Whether the block engine's session was offered every batch that came in, in order and once,
    /// with its deadline; only the last one can be missing, while it is being offered or because
    /// the session did not take it.
    pub open spec fn offers_all(self) -> bool {
        with_deadlines(self.taken) == self.offered + at_most_one(self.offering)
    }

    /// The batches that are held back, on their way to the banking stage, or there.
    pub open spec fn kept(self) -> Multiset<Held<B>> {
        self.queue.add(
            match self.releasing {
                Some(one) => Multiset::singleton(one.0),
                None => Multiset::empty(),
            },
        ).add(released_batches(self.released).to_multiset())
    }

    /// Whether every batch that came in is held back, on its way to the banking stage, or there,
    /// and none left the queue before its deadline.
    pub open spec fn keeps_all(self) -> bool {
        &&& self.kept() == with_deadlines(self.taken).to_multiset()
        &&& self.offering matches Some(held) ==> self.queue.contains(held)
        &&& self.releasing matches Some(one) ==> one.0.deadline <= one.1
        &&& forall|i: int|
            0 <= i < self.released.len() ==> (#[trigger] self.released[i]).0.deadline
                <= self.released[i].1
    }
}

/// Over any run, the block engine's session is offered every batch that comes in, in the order in
/// which they came in and once each, with the moment that lies 300 milliseconds after that at which
/// the batch came in, whatever the status. Only a batch that the session did not take is missing;
/// it is the last one that came in, and the delayer stops on it. So it does on a batch that the
/// banking stage did not take.
pub proof fn every_batch_is_offered<B>(boundary: SlotBoundaryStatus, moments: Seq<Moment<B>>)
    requires
        DelayerRun::start(boundary).awaits_all(moments),
    ensures
        DelayerRun::start(boundary).after_all(moments).offers_all(),
        ({
            let run = DelayerRun::start(boundary).after_all(moments);
            &&& run.stop is None && run.offering is Some ==> moments.last().event is Received
            &&& run.stop is None && run.releasing is Some ==> moments.last().event is Expired
            &&& run.stop matches Some(reason) ==> {
                &&& run.offering is Some <==> reason == DelayerStop::PbsClosed
                &&& run.releasing is Some <==> reason == DelayerStop::BankingClosed
            }
        }),
    decreases moments.len(),
{
    if moments.len() > 0 {
        every_batch_is_offered(boundary, moments.drop_last());
        let before = DelayerRun::start(boundary).after_all(moments.drop_last());
        let run = DelayerRun::start(boundary).after_all(moments);
        if before.stop is None {
            match moments.last().event {
                DelayerEvent::Received { batch, now } => {
                    assert(with_deadlines(run.taken) == with_deadlines(before.taken).push(
                        held_back(batch, now),
                    ));
                },
                _ => {},
            }
        }
        assert(with_deadlines(run.taken) == run.offered + at_most_one(run.offering));
    } else {
        let run = DelayerRun::<B>::start(boundary);
        assert(with_deadlines(run.taken) == run.offered + at_most_one(run.offering));
    }
}

/// Once the session has not taken a batch, the delayer takes in nothing more, and sends nothing
/// more to the banking stage, whatever else happens.
pub proof fn nothing_follows_a_failed_offer<B>(
    run: DelayerRun<B>,
    now: u64,
    moments: Seq<Moment<B>>,
)
    ensures
        ({
            let failed = run.after(Moment { event: DelayerEvent::Forwarded { sent: false }, now });
            &&& failed.stop == Some(DelayerStop::PbsClosed)
            &&& failed.after_all(moments) == failed
            &&& failed.taken == run.taken
            &&& failed.released == run.released
        }),
    decreases moments.len(),
{
    if moments.len() > 0 {
        nothing_follows_a_failed_offer(run, now, moments.drop_last());
    }
}

/// A delayer that was told to stop does nothing more.
pub proof fn nothing_follows_a_stop<B>(run: DelayerRun<B>, moments: Seq<Moment<B>>)
    requires
        run.stop is Some,
    ensures
        run.after_all(moments) == run,
    decreases moments.len(),
{
    if moments.len() > 0 {
        nothing_follows_a_stop(run, moments.drop_last());
    }
}

/// One batch as a multiset.
proof fn lemma_at_most_one<B>(one: Option<Held<B>>)
    ensures
        at_most_one(one).to_multiset() == match one {
            Some(held) => Multiset::empty().insert(held),
            None => Multiset::empty(),
        },
{
    broadcast use vstd::seq_lib::group_to_multiset_ensures;

    assert(Seq::<Held<B>>::empty().to_multiset() =~= Multiset::empty());
    match one {
        Some(held) => {
            assert(at_most_one(one) == Seq::empty().push(held));
        },
        None => {},
    }
}

/// Over any run, no batch is lost in the delayer: every batch that comes in is held back, on its way
/// to the banking stage, or there, and none is in two of these places or twice in one. A batch that
/// is being offered is held back, and none leaves the queue before its deadline.
pub proof fn no_batch_is_lost<B>(boundary: SlotBoundaryStatus, moments: Seq<Moment<B>>)
    requires
        DelayerRun::start(boundary).awaits_all(moments),
    ensures
        DelayerRun::start(boundary).after_all(moments).keeps_all(),
    decreases moments.len(),
{
    broadcast use vstd::seq_lib::group_to_multiset_ensures;

    let run = DelayerRun::start(boundary).after_all(moments);
    if moments.len() == 0 {
        assert(with_deadlines(run.taken) == Seq::<Held<B>>::empty());
        assert(released_batches(run.released) == Seq::<Held<B>>::empty());
        assert(Seq::<Held<B>>::empty().to_multiset() =~= Multiset::empty());
        assert(run.kept() =~= Multiset::empty());
    } else {
        let before = DelayerRun::start(boundary).after_all(moments.drop_last());
        no_batch_is_lost(boundary, moments.drop_last());
        if before.stop is None {
            match moments.last().event {
                DelayerEvent::Received { batch, now } => {
                    assert(with_deadlines(run.taken) == with_deadlines(before.taken).push(
                        held_back(batch, now),
                    ));
                    assert(run.kept() =~= before.kept().insert(held_back(batch, now)));
                },
                DelayerEvent::Expired(_) => {
                    assert(run.kept() =~= before.kept());
                },
                DelayerEvent::Released { sent: true, .. } => {
                    let one = before.releasing->0;
                    assert(released_batches(run.released) == released_batches(before.released).push(
                        one.0,
                    ));
                    assert(run.kept() =~= before.kept());
                },
                _ => {},
            }
        }
    }
}

/// Over any run, what the banking stage gets is among what the block engine's session got: no batch
/// twice, none that did not come in, and none altered. Each leaves the queue no earlier than the
/// deadline with which it was offered.
pub proof fn only_offered_batches_are_released<B>(
    boundary: SlotBoundaryStatus,
    moments: Seq<Moment<B>>,
)
    requires
        DelayerRun::start(boundary).awaits_all(moments),
    ensures
        ({
            let run = DelayerRun::start(boundary).after_all(moments);
            &&& released_batches(run.released).to_multiset().subset_of(run.offered.to_multiset())
            &&& forall|i: int|
                0 <= i < run.released.len() ==> (#[trigger] run.released[i]).0.deadline
                    <= run.released[i].1
        }),
{
    let run = DelayerRun::start(boundary).after_all(moments);
    no_batch_is_lost(boundary, moments);
    every_batch_is_offered(boundary, moments);
    vstd::seq_lib::lemma_multiset_commutative(run.offered, at_most_one(run.offering));
    lemma_at_most_one(run.offering);
    let released = released_batches(run.released).to_multiset();
    assert forall|held: Held<B>| released.count(held) <= run.offered.to_multiset().count(held) by {
        assert(with_deadlines(run.taken).to_multiset().count(held) == run.offered.to_multiset().add(
            at_most_one(run.offering).to_multiset(),
        ).count(held));
        assert(with_deadlines(run.taken).to_multiset().count(held) >= run.queue.count(held)
            + released.count(held));
    }
}

/// Over any run, a delayer that has completed a slot goes back to standing by only when the last
/// batch has gone: then nothing is held back any more, and every batch that came in has been taken
/// by the banking stage.
pub proof fn completed_runs_drain<B>(
    boundary: SlotBoundaryStatus,
    moments: Seq<Moment<B>>,
    moment: Moment<B>,
)
    requires
        DelayerRun::start(boundary).awaits_all(moments.push(moment)),
        DelayerRun::start(boundary).after_all(moments).status == RunningLeaderStatus::Completed,
        DelayerRun::start(boundary).after_all(moments.push(moment)).status
            == RunningLeaderStatus::StandBy,
    ensures
        ({
            let run = DelayerRun::start(boundary).after_all(moments.push(moment));
            &&& moment.event == (DelayerEvent::<B>::Released { sent: true, queue_empty: true })
            &&& run.queue.len() == 0
            &&& run.releasing is None
            &&& run.offering is None
            &&& released_batches(run.released).to_multiset() == with_deadlines(
                run.taken,
            ).to_multiset()
        }),
{
    assert(moments.push(moment).drop_last() == moments);
    let run = DelayerRun::start(boundary).after_all(moments.push(moment));
    no_batch_is_lost(boundary, moments.push(moment));
    assert forall|held: Held<B>| run.queue.count(held) == 0 by {
        if run.queue.count(held) > 0 {
            assert(run.queue.remove(held).len() == run.queue.len() - 1);
        }
    }
    assert(released_batches(run.released).to_multiset() =~= run.kept());
}

/// A change of block production begins a slot if and only if block production is in progress and no
/// slot was running, whether or not batches of the last one are still held back. The timer of its
/// first moments is then armed for exactly 20 milliseconds after the change, and in no other case.
pub proof fn the_first_moments_are_twenty_milliseconds<B>(
    status: RunningLeaderStatus,
    boundary: SlotBoundaryStatus,
    now: u64,
)
    requires
        now + 20_000_000 <= u64::MAX,
    ensures
        ({
            let event = DelayerEvent::<B>::SlotBoundaryChanged { boundary, now };
            let begins = boundary == SlotBoundaryStatus::InProgress && (status
                == RunningLeaderStatus::StandBy || status == RunningLeaderStatus::Completed);
            &&& in_time(event)
            &&& begins ==> next_status(status, event) == RunningLeaderStatus::BankStart
            &&& begins ==> next_action(status, event) == (DelayerAction::<B>::ArmSlotStart {
                at: (now + 20_000_000) as u64,
            })
            &&& !begins ==> next_action(status, event) is Wait
        }),
{
}

/// A slot that ends within its first moments leaves the delayer standing by, one that ends later
/// completes, and any other news leaves the status, unless it begins a slot.
pub proof fn slots_end_as_they_stand<B>(
    status: RunningLeaderStatus,
    boundary: SlotBoundaryStatus,
    now: u64,
)
    ensures
        ({
            let next = next_status(
                status,
                DelayerEvent::<B>::SlotBoundaryChanged { boundary, now },
            );
            &&& boundary == SlotBoundaryStatus::StandBy ==> {
                &&& status == RunningLeaderStatus::BankStart ==> next
                    == RunningLeaderStatus::StandBy
                &&& status == RunningLeaderStatus::InProgress ==> next
                    == RunningLeaderStatus::Completed
                &&& status == RunningLeaderStatus::StandBy ==> next == status
                &&& status == RunningLeaderStatus::Completed ==> next == status
            }
            &&& boundary == SlotBoundaryStatus::InProgress && within_slot(status) ==> next == status
        }),
{
}

/// Events that tell nothing of block production change the status in two cases only: the first
/// moments of a slot end, or the last batch of a completed slot has gone.
pub proof fn the_status_changes_for_a_reason<B>(status: RunningLeaderStatus, event: DelayerEvent<B>)
    requires
        !(event is SlotBoundaryChanged),
    ensures
        event is SlotStartElapsed ==> next_status(status, event) == RunningLeaderStatus::InProgress,
        status == RunningLeaderStatus::Completed && event == (DelayerEvent::<B>::Released {
            sent: true,
            queue_empty: true,
        }) ==> next_status(status, event) == RunningLeaderStatus::StandBy,
        !(event is SlotStartElapsed) && !(status == RunningLeaderStatus::Completed && event == (
        DelayerEvent::<B>::Released { sent: true, queue_empty: true })) ==> next_status(
            status,
            event,
        ) == status,
{
}

/// The delayer stops if and only if the validator is going down, nothing is known of block
/// production any more, or one of the two stages did not take a batch, and says which. A batch whose
/// time has come is sent on as it was held back, and nothing else is; a batch is held back if and
/// only if it comes in.
pub proof fn the_delayer_acts_for_a_reason<B>(status: RunningLeaderStatus, event: DelayerEvent<B>)
    ensures
        next_action(status, event) == DelayerAction::<B>::Stop(DelayerStop::Exit) <==> event == (
        DelayerEvent::<B>::Ready { exit: true }),
        next_action(status, event) == DelayerAction::<B>::Stop(DelayerStop::SlotBoundaryClosed)
            <==> event is SlotBoundaryClosed,
        next_action(status, event) == DelayerAction::<B>::Stop(DelayerStop::BankingClosed) <==> (
        event matches DelayerEvent::Released { sent, .. } && !sent),
        next_action(status, event) == DelayerAction::<B>::Stop(DelayerStop::PbsClosed) <==> event
            == (DelayerEvent::<B>::Forwarded { sent: false }),
        event matches DelayerEvent::Expired(held) ==> next_action(status, event)
            == DelayerAction::Release(held),
        next_action(status, event) is Release ==> event is Expired,
        next_action(status, event) is Delay <==> event is Received,
        next_action(status, event) is ArmSlotStart ==> event is SlotBoundaryChanged,
{
}

/// A delayer that begins within a slot takes its first moments to be over; one that begins between
/// slots stands by.
pub proof fn delayers_begin_with_block_production(boundary: SlotBoundaryStatus)
    ensures
        boundary == SlotBoundaryStatus::InProgress ==> initial_status(boundary)
            == RunningLeaderStatus::InProgress,
        boundary == SlotBoundaryStatus::StandBy ==> initial_status(boundary)
            == RunningLeaderStatus::StandBy,
{
}

/// Batches are released within a slot whose first moments are over and after it, and at no other
/// time; the end of the first moments is awaited only while they last.
pub proof fn releases_follow_the_status<B>(status: RunningLeaderStatus, held: Held<B>)
    ensures
        releases(status) <==> status == RunningLeaderStatus::InProgress || status
            == RunningLeaderStatus::Completed,
        awaited(status, DelayerEvent::Expired(held)) <==> releases(status),
        awaited(status, DelayerEvent::<B>::SlotStartElapsed) <==> status
            == RunningLeaderStatus::BankStart,
{
}

/// The news of slots in a run of the delayer, with its timer.
pub struct SlotRun {
    pub status: RunningLeaderStatus,
    /// What was last heard of block production.
    pub boundary: SlotBoundaryStatus,
    /// When it was last heard that a slot began, if it was.
    pub began: Option<u64>,
    /// When the timer runs out, if it was ever armed.
    pub armed: Option<u64>,
    /// The moment of the last event.
    pub now: u64,
}

impl SlotRun {
    /// A run that begins while block production is as given.
    pub open spec fn start(boundary: SlotBoundaryStatus) -> SlotRun {
        SlotRun {
            status: initial_status(boundary),
            boundary,
            began: None,
            armed: None,
            now: 0,
        }
    }

    /// Whether an event can be the next one: it is awaited, time does not run backwards, news are
    /// told at the moment at which they are heard, and the timer runs out no earlier than it was
    /// armed for.
    pub open spec fn awaits<B>(self, moment: Moment<B>) -> bool {
        &&& awaited(self.status, moment.event)
        &&& in_time(moment.event)
        &&& self.now <= moment.now
        &&& moment.event matches DelayerEvent::SlotBoundaryChanged { now, .. } ==> now == moment.now
        &&& moment.event is SlotStartElapsed ==> (self.armed matches Some(at) && at <= moment.now)
    }

    /// The run after one more event.
    pub open spec fn after<B>(self, moment: Moment<B>) -> SlotRun {
        SlotRun {
            status: next_status(self.status, moment.event),
            boundary: match moment.event {
                DelayerEvent::SlotBoundaryChanged { boundary, .. } => boundary,
                _ => self.boundary,
            },
            began: match moment.event {
                DelayerEvent::SlotBoundaryChanged {
                    boundary: SlotBoundaryStatus::InProgress,
                    now,
                } if self.boundary == SlotBoundaryStatus::StandBy => Some(now),
                _ => self.began,
            },
            armed: match next_action(self.status, moment.event) {
                DelayerAction::ArmSlotStart { at } => Some(at),
                _ => self.armed,
            },
            now: moment.now,
        }
    }

    /// The run after some more events.
    pub open spec fn after_all<B>(self, moments: Seq<Moment<B>>) -> SlotRun
        decreases moments.len(),
    {
        if moments.len() == 0 {
            self
        } else {
            self.after_all(moments.drop_last()).after(moments.last())
        }
    }

    /// Whether each of some more events can be the next one when it happens.
    pub open spec fn awaits_all<B>(self, moments: Seq<Moment<B>>) -> bool
        decreases moments.len(),
    {
        moments.len() == 0 || {
            &&& self.awaits_all(moments.drop_last())
            &&& self.after_all(moments.drop_last()).awaits(moments.last())
        }
    }

    /// Whether the timer is armed for 20 milliseconds after the slot began while its first moments
    /// last, and these have passed wherever batches are released.
    pub open spec fn keeps_first_moments(self) -> bool {
        &&& within_slot(self.status) <==> self.boundary == SlotBoundaryStatus::InProgress
        &&& self.status == RunningLeaderStatus::BankStart ==> {
            &&& self.began is Some
            &&& self.armed is Some
            &&& self.armed->0 == self.began->0 + 20_000_000
        }
        &&& releases(self.status) && self.began is Some ==> self.began->0 + 20_000_000 <= self.now
    }
}

/// Over any run, the first moments of a slot are kept.
proof fn lemma_keeps_first_moments<B>(boundary: SlotBoundaryStatus, moments: Seq<Moment<B>>)
    requires
        SlotRun::start(boundary).awaits_all(moments),
    ensures
        SlotRun::start(boundary).after_all(moments).keeps_first_moments(),
    decreases moments.len(),
{
    if moments.len() > 0 {
        lemma_keeps_first_moments(boundary, moments.drop_last());
    }
}

/// Over any run, no batch is released within 20 milliseconds of the news that a slot began, however
/// the slot before it ended and whatever is held back: a batch whose time has come leaves the queue
/// no earlier than that.
pub proof fn nothing_is_released_in_the_first_moments<B>(
    boundary: SlotBoundaryStatus,
    moments: Seq<Moment<B>>,
    moment: Moment<B>,
)
    requires
        SlotRun::start(boundary).awaits_all(moments.push(moment)),
        moment.event is Expired,
    ensures
        SlotRun::start(boundary).after_all(moments).began matches Some(began) ==> moment.now
            >= began + 20_000_000,
{
    assert(moments.push(moment).drop_last() == moments);
    lemma_keeps_first_moments(boundary, moments);
}

/// Everything but the end of the first moments and what comes of the queue can happen at any time,
/// as long as the moments that follow from it can be told; what comes of the queue is awaited only
/// while batches are released.
pub proof fn most_events_are_always_awaited<B>(
    status: RunningLeaderStatus,
    event: DelayerEvent<B>,
)
    ensures
        event is Ready || event is SlotBoundaryChanged || event is SlotBoundaryClosed || event
            is Received || event is Forwarded ==> awaited(status, event),
        event is Released || event is TimerFailed ==> (awaited(status, event) <==> releases(
            status,
        )),
        event matches DelayerEvent::Received { now, .. } ==> (in_time(event) <==> now + 300_000_000
            <= u64::MAX),
        event matches DelayerEvent::SlotBoundaryChanged { now, .. } ==> (in_time(event) <==> now
            + 20_000_000 <= u64::MAX),
        !(event is Received) && !(event is SlotBoundaryChanged) ==> in_time(event),
{
}

} // verus!
