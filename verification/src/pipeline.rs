//! The way of a batch through the stage, from signature verification to the banking stage.
//!
//! The forwarder sends a batch either straight to the banking stage or to the delayer. The channel
//! between the two keeps order: what the delayer has taken in is at any time the first part of what
//! the forwarder has sent to it. The delayer releases what it took in to the banking stage.
use vstd::prelude::*;

use crate::delayer;
use crate::forwarder;
use crate::slot::SlotBoundaryStatus;

verus! {

/// The batches that the delayer released.
pub open spec fn delayed_batches<B>(released: Seq<(delayer::Held<B>, u64)>) -> Seq<B> {
    unheld(delayer::released_batches(released))
}

/// The batches themselves, without their deadlines.
pub open spec fn unheld<B>(list: Seq<delayer::Held<B>>) -> Seq<B> {
    list.map_values(|held: delayer::Held<B>| held.batch)
}

/// A list that is part of another is part of it without the deadlines, too.
proof fn lemma_unheld_subset<B>(part: Seq<delayer::Held<B>>, whole: Seq<delayer::Held<B>>)
    requires
        part.to_multiset().subset_of(whole.to_multiset()),
    ensures
        unheld(part).to_multiset().subset_of(unheld(whole).to_multiset()),
    decreases part.len(),
{
    broadcast use vstd::seq_lib::group_to_multiset_ensures;

    if part.len() > 0 {
        let held = part.last();
        let rest = part.drop_last();
        assert(part == rest.push(held));
        assert(part.to_multiset() == rest.to_multiset().insert(held));
        assert(whole.to_multiset().count(held) > 0);
        let at = choose|at: int| 0 <= at < whole.len() && whole[at] == held;
        let others = whole.remove(at);
        assert(others.to_multiset() == whole.to_multiset().remove(held));
        assert(rest.to_multiset().subset_of(others.to_multiset()));
        lemma_unheld_subset(rest, others);
        assert(unheld(part) == unheld(rest).push(held.batch));
        assert(unheld(others) == unheld(whole).remove(at));
        assert(unheld(whole)[at] == held.batch);
        assert(unheld(whole).contains(held.batch));
        assert(unheld(others).to_multiset() == unheld(whole).to_multiset().remove(held.batch));
    } else {
        assert(unheld(part) == Seq::<B>::empty());
        assert(Seq::<B>::empty().to_multiset() =~= vstd::multiset::Multiset::empty());
    }
}

/// Over the life of the stage, whatever it does and however often sessions with the block engine
/// begin and fail, the banking stage gets only batches that came in from signature verification, as
/// they came in, and each at most as often as it came in: the batches that it gets straight from
/// the forwarder and those that it gets through the delayer are together part of those that came
/// in.
pub proof fn banking_gets_each_batch_at_most_once<B>(
    events: Seq<forwarder::ForwardEvent<B>>,
    boundary: SlotBoundaryStatus,
    moments: Seq<delayer::Moment<B>>,
)
    requires
        forwarder::ForwarderRun::<B>::start().awaits_all(events),
        delayer::DelayerRun::start(boundary).awaits_all(moments),
        forwarder::batches(
            delayer::DelayerRun::start(boundary).after_all(moments).taken,
        ).is_prefix_of(forwarder::ForwarderRun::<B>::start().after_all(events).to_pbs),
    ensures
        ({
            let forwarded = forwarder::ForwarderRun::<B>::start().after_all(events);
            let delayed = delayer::DelayerRun::start(boundary).after_all(moments);
            forwarded.to_banking.to_multiset().add(
                delayed_batches(delayed.released).to_multiset(),
            ).subset_of(forwarder::batches(forwarded.taken).to_multiset())
        }),
{
    broadcast use vstd::seq_lib::group_to_multiset_ensures;

    let forwarded = forwarder::ForwarderRun::<B>::start().after_all(events);
    let delayed = delayer::DelayerRun::start(boundary).after_all(moments);
    let taken = forwarder::batches(delayed.taken);
    let released = delayer::released_batches(delayed.released);

    // What is released was taken in.
    delayer::only_offered_batches_are_released(boundary, moments);
    delayer::every_batch_is_offered(boundary, moments);
    let offering = delayer::at_most_one(delayed.offering);
    vstd::seq_lib::lemma_multiset_commutative(delayed.offered, offering);
    assert(released.to_multiset().subset_of(
        delayer::with_deadlines(delayed.taken).to_multiset(),
    ));
    lemma_unheld_subset(released, delayer::with_deadlines(delayed.taken));
    assert(unheld(delayer::with_deadlines(delayed.taken)) == taken);

    // What was taken in was sent by the forwarder.
    let rest = forwarded.to_pbs.skip(taken.len() as int);
    assert(forwarded.to_pbs == taken + rest);
    vstd::seq_lib::lemma_multiset_commutative(taken, rest);

    // What the forwarder sent to either side came in.
    forwarder::batches_keep_their_order(events);
    forwarder::lemma_two_sides(forwarded.delivered());
    if forwarded.undelivered() {
        assert(forwarder::batches(forwarded.taken) == forwarder::batches(
            forwarded.delivered(),
        ).push(forwarded.taken.last().0));
    }
    assert forall|batch: B|
        forwarded.to_banking.to_multiset().add(
            delayed_batches(delayed.released).to_multiset(),
        ).count(batch) <= forwarder::batches(forwarded.taken).to_multiset().count(batch) by {
        assert(forwarded.to_pbs.to_multiset().count(batch) == taken.to_multiset().count(batch)
            + rest.to_multiset().count(batch));
        assert(forwarder::batches(forwarded.delivered()).to_multiset().count(batch)
            == forwarded.to_pbs.to_multiset().count(batch)
            + forwarded.to_banking.to_multiset().count(batch));
    }
}

} // verus!
