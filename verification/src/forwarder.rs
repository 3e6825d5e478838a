//! Where packets go after signature verification.
use vstd::prelude::*;

verus! {

/// The two stages that verified packets can go to.
#[derive(Clone, Copy, Debug, PartialEq, Eq, Structural)]
pub enum Destination {
    /// The delayer, which shares them with the block engine.
    Pbs,
    /// The banking stage.
    Banking,
}

/// What the forwarder has seen, of batches of type `B`.
#[derive(Clone, Debug, PartialEq, Eq)]
pub enum ForwardEvent<B> {
    /// It is about to wait for the next batch, and what it had to send has been taken; `exit` says
    /// whether the validator is going down.
    Ready { exit: bool },
    /// A batch came in; `pbs_active` says whether a session with the block engine is running.
    Received { batch: B, pbs_active: bool },
    /// No batch will come any more.
    ReceiverClosed,
    /// The stage that a batch was sent to does not listen any more.
    SendFailed(Destination),
}

/// Why the forwarder stops.
#[derive(Clone, Copy, Debug, PartialEq, Eq, Structural)]
pub enum ForwardStop {
    Exit,
    ReceiverClosed,
    PbsClosed,
    BankingClosed,
}

/// What the forwarder does next.
#[derive(Clone, Debug, PartialEq, Eq)]
pub enum ForwardAction<B> {
    /// Wait for the next batch.
    Receive,
    /// Send on a batch.
    Send(Destination, B),
    /// Stop forwarding.
    Stop(ForwardStop),
}

/// What the forwarder does after an event.
pub open spec fn forward_action<B>(event: ForwardEvent<B>) -> ForwardAction<B> {
    match event {
        ForwardEvent::Ready { exit: true } => ForwardAction::Stop(ForwardStop::Exit),
        ForwardEvent::Ready { exit: false } => ForwardAction::Receive,
        ForwardEvent::Received { batch, pbs_active: true } => ForwardAction::Send(
            Destination::Pbs,
            batch,
        ),
        ForwardEvent::Received { batch, pbs_active: false } => ForwardAction::Send(
            Destination::Banking,
            batch,
        ),
        ForwardEvent::ReceiverClosed => ForwardAction::Stop(ForwardStop::ReceiverClosed),
        ForwardEvent::SendFailed(Destination::Pbs) => ForwardAction::Stop(ForwardStop::PbsClosed),
        ForwardEvent::SendFailed(Destination::Banking) => ForwardAction::Stop(
            ForwardStop::BankingClosed,
        ),
    }
}

/// Decides what the forwarder does next: a batch goes to the delayer while a session with the
/// block engine is running, and straight to the banking stage while there is none.
pub fn forward_packet_batches<B>(event: ForwardEvent<B>) -> (action: ForwardAction<B>)
    ensures
        action == forward_action(event),
{
    match event {
        ForwardEvent::Ready { exit } => {
            if exit {
                ForwardAction::Stop(ForwardStop::Exit)
            } else {
                ForwardAction::Receive
            }
        },
        ForwardEvent::Received { batch, pbs_active } => {
            if pbs_active {
                ForwardAction::Send(Destination::Pbs, batch)
            } else {
                ForwardAction::Send(Destination::Banking, batch)
            }
        },
        ForwardEvent::ReceiverClosed => ForwardAction::Stop(ForwardStop::ReceiverClosed),
        ForwardEvent::SendFailed(Destination::Pbs) => ForwardAction::Stop(ForwardStop::PbsClosed),
        ForwardEvent::SendFailed(Destination::Banking) => ForwardAction::Stop(
            ForwardStop::BankingClosed,
        ),
    }
}

/// Every batch that comes in is sent on as it is, to the delayer if and only if a session with the
/// block engine is running.
pub proof fn every_batch_is_sent_on<B>(batch: B, pbs_active: bool)
    ensures
        forward_action(ForwardEvent::Received { batch, pbs_active }) == ForwardAction::Send(
            if pbs_active {
                Destination::Pbs
            } else {
                Destination::Banking
            },
            batch,
        ),
{
}

/// What a run of the forwarder has come to.
#[verifier::ext_equal]
#[verifier::reject_recursive_types(B)]
pub struct ForwarderRun<B> {
    /// The batches that came in, each with whether a session was running then.
    pub taken: Seq<(B, bool)>,
    /// The batches that the delayer took.
    pub to_pbs: Seq<B>,
    /// The batches that the banking stage took.
    pub to_banking: Seq<B>,
    /// The batch that nobody took.
    pub lost: Option<B>,
    /// What the forwarder was last told to do.
    pub last: Option<ForwardAction<B>>,
}

/// Those of the batches that came in while a session was running, or while none was, in order.
pub open spec fn sent_on<B>(taken: Seq<(B, bool)>, pbs_active: bool) -> Seq<B>
    decreases taken.len(),
{
    if taken.len() == 0 {
        Seq::empty()
    } else {
        let earlier = sent_on(taken.drop_last(), pbs_active);
        if taken.last().1 == pbs_active {
            earlier.push(taken.last().0)
        } else {
            earlier
        }
    }
}

/// The batches that came in.
pub open spec fn batches<B, T>(taken: Seq<(B, T)>) -> Seq<B> {
    taken.map_values(|one: (B, T)| one.0)
}

impl<B> ForwarderRun<B> {
    /// The run before anything has happened.
    pub open spec fn start() -> ForwarderRun<B> {
        ForwarderRun {
            taken: Seq::empty(),
            to_pbs: Seq::empty(),
            to_banking: Seq::empty(),
            lost: None,
            last: None,
        }
    }

    /// Whether an event can be the next one: each answers what the forwarder was last told to do.
    pub open spec fn awaits(self, event: ForwardEvent<B>) -> bool {
        match self.last {
            None => event is Ready,
            Some(ForwardAction::Receive) => event is Received || event is ReceiverClosed,
            Some(ForwardAction::Send(destination, _)) => event is Ready || event
                == ForwardEvent::<B>::SendFailed(destination),
            Some(ForwardAction::Stop(_)) => false,
        }
    }

    /// The run after one more event.
    pub open spec fn after(self, event: ForwardEvent<B>) -> ForwarderRun<B> {
        ForwarderRun {
            taken: match event {
                ForwardEvent::Received { batch, pbs_active } => self.taken.push(
                    (batch, pbs_active),
                ),
                _ => self.taken,
            },
            to_pbs: match (self.last, event) {
                (
                    Some(ForwardAction::Send(Destination::Pbs, batch)),
                    ForwardEvent::Ready { .. },
                ) => self.to_pbs.push(batch),
                _ => self.to_pbs,
            },
            to_banking: match (self.last, event) {
                (
                    Some(ForwardAction::Send(Destination::Banking, batch)),
                    ForwardEvent::Ready { .. },
                ) => self.to_banking.push(batch),
                _ => self.to_banking,
            },
            lost: match (self.last, event) {
                (Some(ForwardAction::Send(_, batch)), ForwardEvent::SendFailed(_)) => Some(batch),
                _ => self.lost,
            },
            last: Some(forward_action(event)),
        }
    }

    /// The run after some more events.
    pub open spec fn after_all(self, events: Seq<ForwardEvent<B>>) -> ForwarderRun<B>
        decreases events.len(),
    {
        if events.len() == 0 {
            self
        } else {
            self.after_all(events.drop_last()).after(events.last())
        }
    }

    /// Whether each of some more events can be the next one when it happens.
    pub open spec fn awaits_all(self, events: Seq<ForwardEvent<B>>) -> bool
        decreases events.len(),
    {
        events.len() == 0 || (self.awaits_all(events.drop_last()) && self.after_all(
            events.drop_last(),
        ).awaits(events.last()))
    }

    /// Whether the last batch that came in has not been taken by anybody.
    pub open spec fn undelivered(self) -> bool {
        self.lost is Some || self.last matches Some(ForwardAction::Send(_, _))
    }

    /// The batches that came in and were taken by somebody.
    pub open spec fn delivered(self) -> Seq<(B, bool)> {
        if self.undelivered() {
            self.taken.drop_last()
        } else {
            self.taken
        }
    }

    /// Whether each side got its batches in the order in which they came in, and only the last one
    /// can be missing.
    pub open spec fn in_order(self) -> bool {
        &&& self.to_pbs == sent_on(self.delivered(), true)
        &&& self.to_banking == sent_on(self.delivered(), false)
        &&& self.undelivered() ==> self.taken.len() > 0
        &&& match self.last {
            Some(ForwardAction::Send(destination, batch)) => {
                &&& self.lost is None
                &&& self.taken.last() == (batch, destination == Destination::Pbs)
            },
            _ => true,
        }
        &&& match self.lost {
            Some(batch) => {
                &&& self.last matches Some(ForwardAction::Stop(_))
                &&& self.taken.last().0 == batch
            },
            None => true,
        }
    }
}

/// Over any run, each batch that comes in goes, as it is, to exactly one of the two stages: to the
/// delayer if a session was running when it came in, and to the banking stage if not. Each stage
/// gets its batches in the order in which they came in. Only a batch that nobody took is lost; it
/// is the last one that came in, and the forwarder stops on it.
pub proof fn batches_keep_their_order<B>(events: Seq<ForwardEvent<B>>)
    requires
        ForwarderRun::<B>::start().awaits_all(events),
    ensures
        ForwarderRun::<B>::start().after_all(events).in_order(),
    decreases events.len(),
{
    if events.len() > 0 {
        batches_keep_their_order(events.drop_last());
        let before = ForwarderRun::<B>::start().after_all(events.drop_last());
        let run = before.after(events.last());
        match events.last() {
            ForwardEvent::Received { batch, pbs_active } => {
                assert(run.taken.drop_last() == before.taken);
            },
            _ => {},
        }
    }
}

/// A forwarder that has stopped sends nothing more: no event is awaited any more.
pub proof fn nothing_follows_a_stop<B>(run: ForwarderRun<B>, event: ForwardEvent<B>)
    requires
        run.last matches Some(ForwardAction::Stop(_)),
    ensures
        !run.awaits(event),
{
}

/// The batches of the two sides are together the batches that came in.
pub(crate) proof fn lemma_two_sides<B>(taken: Seq<(B, bool)>)
    ensures
        sent_on(taken, true).to_multiset().add(sent_on(taken, false).to_multiset()) == batches(
            taken,
        ).to_multiset(),
    decreases taken.len(),
{
    broadcast use vstd::seq_lib::group_to_multiset_ensures;

    if taken.len() > 0 {
        let earlier = taken.drop_last();
        lemma_two_sides(earlier);
        assert(batches(taken) == batches(earlier).push(taken.last().0));
    } else {
        assert(batches(taken) == Seq::<B>::empty());
        assert(Seq::<B>::empty().to_multiset() =~= vstd::multiset::Multiset::empty());
    }
}

/// The forwarder waits for a batch whenever it is ready and the validator is not going down. It
/// stops if and only if the validator is going down, no batch will come any more, or the stage that
/// it sent a batch to is gone, and says which.
pub proof fn the_forwarder_stops_with_a_reason<B>(event: ForwardEvent<B>)
    ensures
        forward_action(event) is Receive <==> event == (ForwardEvent::<B>::Ready { exit: false }),
        forward_action(event) == ForwardAction::<B>::Stop(ForwardStop::Exit) <==> event == (
        ForwardEvent::<B>::Ready { exit: true }),
        forward_action(event) == ForwardAction::<B>::Stop(ForwardStop::ReceiverClosed) <==> event
            is ReceiverClosed,
        forward_action(event) == ForwardAction::<B>::Stop(ForwardStop::PbsClosed) <==> event
            == ForwardEvent::<B>::SendFailed(Destination::Pbs),
        forward_action(event) == ForwardAction::<B>::Stop(ForwardStop::BankingClosed) <==> event
            == ForwardEvent::<B>::SendFailed(Destination::Banking),
        forward_action(event) is Send <==> event is Received,
{
}

} // verus!
