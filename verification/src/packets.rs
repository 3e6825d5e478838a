//! What becomes of a batch of packets that waits for the block engine.
use vstd::prelude::*;

use crate::error::PbsError;
use crate::solana;
use crate::solana::LoadedAddresses;
use crate::stats;
use crate::stats::PbsStageStats;
use crate::transaction;
use crate::transaction::{
    pending_transactions, resolve_transactions, sanitize_transactions, PendingTransaction,
    ProtoSanitizedTransaction,
};
use solana_perf::packet::PacketBatch;
use solana_sdk::transaction::VersionedTransaction;

verus! {

/// A point in time since the Unix epoch, in the form in which the block engine takes it.
#[derive(Clone, Copy, Debug, PartialEq, Eq)]
pub struct Timestamp {
    pub seconds: i64,
    pub nanos: i32,
}

/// A message to the block engine: sanitized transactions, and when they were sent.
#[derive(Debug)]
pub struct SanitizedTransactionRequest {
    pub ts: Option<Timestamp>,
    pub transactions: Vec<ProtoSanitizedTransaction>,
}

/// What to do with a batch of packets.
#[derive(Debug)]
pub enum PacketBatchStep {
    /// Nothing: the batch is dropped.
    Skip,
    /// Resolve the address table lookups of these transactions.
    Resolve(Vec<PendingTransaction>),
}

/// Whether a deadline has passed.
pub open spec fn missed(deadline: u64, now: u64) -> bool {
    deadline < now
}

/// The counters after a batch came too late.
pub open spec fn with_missing_deadline(stats: PbsStageStats) -> PbsStageStats {
    PbsStageStats {
        num_missing_deadlines: stats::saturating_sum(stats.num_missing_deadlines, 1),
        ..stats
    }
}

/// The counters after a batch without packets.
pub open spec fn with_empty_packet_batch(stats: PbsStageStats) -> PbsStageStats {
    PbsStageStats {
        num_empty_packet_batches: stats::saturating_sum(stats.num_empty_packet_batches, 1),
        ..stats
    }
}

/// The counters after a batch of which no transaction was accepted.
pub open spec fn with_empty_tx_batch(stats: PbsStageStats) -> PbsStageStats {
    PbsStageStats {
        num_empty_tx_batches: stats::saturating_sum(stats.num_empty_tx_batches, 1),
        ..stats
    }
}

/// The counters after some transactions were sent.
pub open spec fn with_sanitized_transactions(stats: PbsStageStats, count: nat) -> PbsStageStats {
    PbsStageStats {
        num_sanitized_transactions: stats::saturating_sum(stats.num_sanitized_transactions, count),
        ..stats
    }
}

/// Takes a batch of packets whose transactions the block engine may have until `deadline`. Both
/// times are nanoseconds since one common moment. A batch whose deadline has passed and a list
/// without batches are counted and dropped; of any other the transactions are decoded.
pub fn handle_packet_batch(
    packet_batches: &Vec<PacketBatch>,
    deadline: u64,
    now: u64,
    pbs_stats: &mut PbsStageStats,
) -> (step: PacketBatchStep)
    ensures
        if missed(deadline, now) {
            step is Skip && *final(pbs_stats) == with_missing_deadline(*old(pbs_stats))
        } else if packet_batches@.len() == 0 {
            step is Skip && *final(pbs_stats) == with_empty_packet_batch(*old(pbs_stats))
        } else {
            &&& step is Resolve
            &&& transaction::pending_view(step->Resolve_0@) == transaction::live_transactions(
                packet_batches@,
            )
            &&& *final(pbs_stats) == *old(pbs_stats)
        },
{
    if deadline < now {
        pbs_stats.num_missing_deadlines = pbs_stats.num_missing_deadlines.saturating_add(1);
        return PacketBatchStep::Skip;
    }
    if packet_batches.is_empty() {
        pbs_stats.num_empty_packet_batches = pbs_stats.num_empty_packet_batches.saturating_add(1);
        return PacketBatchStep::Skip;
    }
    PacketBatchStep::Resolve(pending_transactions(packet_batches))
}

/// Hands on the transactions that a batch gave; a batch that gave none is counted and dropped.
pub fn accept_transactions(
    transactions: Vec<ProtoSanitizedTransaction>,
    pbs_stats: &mut PbsStageStats,
) -> (accepted: Option<Vec<ProtoSanitizedTransaction>>)
    ensures
        if transactions@.len() == 0 {
            accepted is None && *final(pbs_stats) == with_empty_tx_batch(*old(pbs_stats))
        } else {
            accepted == Some(transactions) && *final(pbs_stats) == *old(pbs_stats)
        },
{
    if transactions.is_empty() {
        pbs_stats.num_empty_tx_batches = pbs_stats.num_empty_tx_batches.saturating_add(1);
        return None;
    }
    Some(transactions)
}

/// The transactions that a batch gives, from its own transactions and the answers to their lookups.
pub open spec fn accepted_batch(
    transactions: Seq<VersionedTransaction>,
    answers: Seq<Option<solana::LoadedAddressesView>>,
) -> Seq<transaction::ProtoSanitizedTransactionView> {
    transaction::accepted_transactions(transactions.zip_with(answers))
}

/// Sanitizes the transactions of a batch, each with the answer to its lookups, and hands on those
/// that are accepted; a batch that gave none is counted and dropped.
pub fn handle_answered_batch(
    pending: Vec<PendingTransaction>,
    answers: Vec<Option<LoadedAddresses>>,
    pbs_stats: &mut PbsStageStats,
) -> (accepted: Option<Vec<ProtoSanitizedTransaction>>)
    requires
        pending@.len() == answers@.len(),
    ensures
        match accepted {
            Some(transactions) => {
                &&& transactions@.len() > 0
                &&& transaction::protos_view(transactions@) == accepted_batch(
                    transaction::pending_view(pending@),
                    transaction::answers_view(answers@),
                )
                &&& *final(pbs_stats) == *old(pbs_stats)
            },
            None => {
                &&& accepted_batch(
                    transaction::pending_view(pending@),
                    transaction::answers_view(answers@),
                ).len() == 0
                &&& *final(pbs_stats) == with_empty_tx_batch(*old(pbs_stats))
            },
        },
{
    let resolved = resolve_transactions(pending, answers);
    accept_transactions(sanitize_transactions(resolved), pbs_stats)
}

impl SanitizedTransactionRequest {
    /// The message for a list of transactions, sent at a time that is given as whole seconds since
    /// the Unix epoch and the nanoseconds beyond them.
    pub fn new(transactions: Vec<ProtoSanitizedTransaction>, seconds: u64, nanos: u32) -> (request:
        SanitizedTransactionRequest)
        ensures
            request.ts == Some(Timestamp { seconds: seconds as i64, nanos: nanos as i32 }),
            request.transactions == transactions,
    {
        SanitizedTransactionRequest {
            ts: Some(Timestamp { seconds: seconds as i64, nanos: nanos as i32 }),
            transactions,
        }
    }
}

/// The number of transactions of a message that is being sent. It can only be had from the
/// transactions themselves.
#[derive(Debug)]
pub struct RequestReceipt {
    num_transactions: usize,
}

impl View for RequestReceipt {
    type V = nat;

    closed spec fn view(&self) -> nat {
        self.num_transactions as nat
    }
}

impl RequestReceipt {
    /// The receipt for a list of transactions.
    pub fn of(transactions: &Vec<ProtoSanitizedTransaction>) -> (receipt: RequestReceipt)
        ensures
            receipt@ == transactions@.len(),
    {
        RequestReceipt { num_transactions: transactions.len() }
    }
}

/// Takes the outcome of sending a message: a block engine that no longer listens ends the session,
/// and what was sent is counted.
pub fn handle_request_sent(sent: bool, receipt: &RequestReceipt, pbs_stats: &mut PbsStageStats) -> (
result: Result<(), PbsError>)
    ensures
        if sent {
            &&& result == Ok::<(), PbsError>(())
            &&& *final(pbs_stats) == with_sanitized_transactions(*old(pbs_stats), receipt@)
        } else {
            &&& result == Err::<(), PbsError>(PbsError::GrpcStreamDisconnected)
            &&& *final(pbs_stats) == *old(pbs_stats)
        },
{
    if !sent {
        return Err(PbsError::GrpcStreamDisconnected);
    }
    pbs_stats.num_sanitized_transactions =
    pbs_stats.num_sanitized_transactions.saturating_add(receipt.num_transactions as u64);
    Ok(())
}

/// Each transaction of a batch is sanitized with its own answer: a batch gives what its first
/// transaction gives with the first answer, if anything, and then what the rest gives with the
/// answers that remain. A batch without transactions gives none.
pub proof fn each_transaction_gets_its_own_answer(
    first: VersionedTransaction,
    answer: Option<solana::LoadedAddressesView>,
    rest: Seq<VersionedTransaction>,
    answers: Seq<Option<solana::LoadedAddressesView>>,
)
    requires
        rest.len() == answers.len(),
    ensures
        accepted_batch(seq![first] + rest, seq![answer] + answers)
            == match transaction::accepted_transaction(first, answer) {
            Some(proto) => seq![proto] + accepted_batch(rest, answers),
            None => accepted_batch(rest, answers),
        },
        accepted_batch(Seq::empty(), Seq::empty()) == Seq::<
            transaction::ProtoSanitizedTransactionView,
        >::empty(),
{
    assert((seq![first] + rest).zip_with(seq![answer] + answers) == seq![(first, answer)]
        + rest.zip_with(answers));
    transaction::the_first_is_accepted_first(first, answer, rest.zip_with(answers));
    assert(Seq::<VersionedTransaction>::empty().zip_with(
        Seq::<Option<solana::LoadedAddressesView>>::empty(),
    ) == Seq::<transaction::ResolvedTransactionView>::empty());
}

/// A batch gives what its first part gives with the first answers, and then what the rest gives with
/// the answers that remain, and never more than it has transactions.
pub proof fn batches_are_answered_in_order(
    first: Seq<VersionedTransaction>,
    first_answers: Seq<Option<solana::LoadedAddressesView>>,
    second: Seq<VersionedTransaction>,
    second_answers: Seq<Option<solana::LoadedAddressesView>>,
)
    requires
        first.len() == first_answers.len(),
        second.len() == second_answers.len(),
    ensures
        accepted_batch(first + second, first_answers + second_answers) == accepted_batch(
            first,
            first_answers,
        ) + accepted_batch(second, second_answers),
        accepted_batch(first, first_answers).len() <= first.len(),
{
    assert((first + second).zip_with(first_answers + second_answers) == first.zip_with(
        first_answers,
    ) + second.zip_with(second_answers));
    transaction::transactions_are_accepted_one_by_one(
        first.zip_with(first_answers),
        second.zip_with(second_answers),
    );
}

/// A batch is late if and only if its deadline lies before now.
pub proof fn a_deadline_is_missed_only_after_it(deadline: u64, now: u64)
    ensures
        missed(deadline, now) <==> deadline < now,
{
}

/// What becomes of a batch raises one counter, by one or by the number of transactions that were
/// sent, up to the limit of a counter, and no other.
pub proof fn batches_raise_one_counter(stats: PbsStageStats, count: nat)
    ensures
        with_missing_deadline(stats) == (PbsStageStats {
            num_missing_deadlines: with_missing_deadline(stats).num_missing_deadlines,
            ..stats
        }),
        with_empty_packet_batch(stats) == (PbsStageStats {
            num_empty_packet_batches: with_empty_packet_batch(stats).num_empty_packet_batches,
            ..stats
        }),
        with_empty_tx_batch(stats) == (PbsStageStats {
            num_empty_tx_batches: with_empty_tx_batch(stats).num_empty_tx_batches,
            ..stats
        }),
        with_sanitized_transactions(stats, count) == (PbsStageStats {
            num_sanitized_transactions: with_sanitized_transactions(
                stats,
                count,
            ).num_sanitized_transactions,
            ..stats
        }),
        with_missing_deadline(stats).num_missing_deadlines == if stats.num_missing_deadlines
            == u64::MAX {
            u64::MAX as int
        } else {
            stats.num_missing_deadlines + 1
        },
        with_empty_packet_batch(stats).num_empty_packet_batches
            == if stats.num_empty_packet_batches == u64::MAX {
            u64::MAX as int
        } else {
            stats.num_empty_packet_batches + 1
        },
        with_empty_tx_batch(stats).num_empty_tx_batches == if stats.num_empty_tx_batches
            == u64::MAX {
            u64::MAX as int
        } else {
            stats.num_empty_tx_batches + 1
        },
        with_sanitized_transactions(stats, count).num_sanitized_transactions
            == if stats.num_sanitized_transactions + count > u64::MAX {
            u64::MAX as int
        } else {
            stats.num_sanitized_transactions + count
        },
{
}

} // verus!
