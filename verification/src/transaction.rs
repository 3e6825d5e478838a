//! From packets to the sanitized transactions that the block engine is sent.
use vstd::prelude::*;

use crate::solana;
use crate::solana::{
    address_table_lookups, deserialize_transaction, discarded, get_loaded_addresses, message_hash,
    packet_at, serialize_addresses, serialize_transaction, try_create, AddressTableLookup,
    LoadedAddresses,
};
use solana_perf::packet::PacketBatch;
use solana_sdk::packet::Packet;
use solana_sdk::transaction::{SanitizedTransaction, VersionedTransaction};

verus! {

/// A sanitized transaction in the form in which the block engine takes it.
#[derive(Debug)]
pub struct ProtoSanitizedTransaction {
    /// The transaction, in bincode form.
    pub versioned_transaction: Vec<u8>,
    /// The hash of its message.
    pub message_hash: Vec<u8>,
    /// The addresses that its lookups gave, in bincode form.
    pub loaded_addresses: Vec<u8>,
}

/// What a [`ProtoSanitizedTransaction`] holds.
#[verifier::ext_equal]
pub struct ProtoSanitizedTransactionView {
    pub versioned_transaction: Seq<u8>,
    pub message_hash: Seq<u8>,
    pub loaded_addresses: Seq<u8>,
}

impl View for ProtoSanitizedTransaction {
    type V = ProtoSanitizedTransactionView;

    open spec fn view(&self) -> ProtoSanitizedTransactionView {
        ProtoSanitizedTransactionView {
            versioned_transaction: self.versioned_transaction@,
            message_hash: self.message_hash@,
            loaded_addresses: self.loaded_addresses@,
        }
    }
}

/// What each of a list of transactions holds.
pub open spec fn protos_view(transactions: Seq<ProtoSanitizedTransaction>) -> Seq<
    ProtoSanitizedTransactionView,
> {
    transactions.map_values(|transaction: ProtoSanitizedTransaction| transaction@)
}

/// The content of an optional byte string.
pub open spec fn bytes_view(bytes: Option<Vec<u8>>) -> Option<Seq<u8>> {
    match bytes {
        Some(bytes) => Some(bytes@),
        None => None,
    }
}

/// The block engine's form of a transaction, from its parts: there is one where both the
/// transaction and its addresses could be encoded.
pub open spec fn proto_from_parts(
    versioned_transaction: Option<Seq<u8>>,
    message_hash: Seq<u8>,
    loaded_addresses: Option<Seq<u8>>,
) -> Option<ProtoSanitizedTransactionView> {
    match (versioned_transaction, loaded_addresses) {
        (Some(versioned_transaction), Some(loaded_addresses)) => Some(
            ProtoSanitizedTransactionView { versioned_transaction, message_hash, loaded_addresses },
        ),
        _ => None,
    }
}

/// The block engine's form of a sanitized transaction.
pub open spec fn proto_sanitized(sanitized: SanitizedTransaction) -> Option<
    ProtoSanitizedTransactionView,
> {
    proto_from_parts(
        solana::transaction_bytes(solana::versioned_transaction(sanitized)),
        solana::sanitized_message_hash(sanitized),
        Some(solana::encoded_addresses(solana::sanitized_addresses(sanitized))),
    )
}

/// Puts the block engine's form of a transaction together from its parts.
pub fn proto_sanitized_from_parts(
    versioned_transaction: Option<Vec<u8>>,
    message_hash: Vec<u8>,
    loaded_addresses: Option<Vec<u8>>,
) -> (proto: Option<ProtoSanitizedTransaction>)
    ensures
        match proto {
            Some(proto) => proto_from_parts(
                bytes_view(versioned_transaction),
                message_hash@,
                bytes_view(loaded_addresses),
            ) == Some(proto@),
            None => versioned_transaction is None || loaded_addresses is None,
        },
        proto matches Some(proto) ==> {
            &&& versioned_transaction == Some(proto.versioned_transaction)
            &&& proto.message_hash == message_hash
            &&& loaded_addresses == Some(proto.loaded_addresses)
        },
{
    let versioned_transaction = versioned_transaction?;
    let loaded_addresses = loaded_addresses?;
    Some(ProtoSanitizedTransaction { versioned_transaction, message_hash, loaded_addresses })
}

/// The block engine's form of a sanitized transaction; `None` where it cannot be encoded.
pub fn sanitized_to_proto_sanitized(tx: SanitizedTransaction) -> (proto: Option<
    ProtoSanitizedTransaction,
>)
    ensures
        match proto {
            Some(proto) => proto_sanitized(tx) == Some(proto@),
            None => proto_sanitized(tx) is None,
        },
        proto matches Some(proto) ==> proto.message_hash@.len() == 32,
{
    let versioned_transaction = serialize_transaction(&tx.to_versioned_transaction());
    let message_hash = message_hash(&tx);
    let loaded_addresses = serialize_addresses(&get_loaded_addresses(&tx));
    proto_sanitized_from_parts(versioned_transaction, message_hash, loaded_addresses)
}

/// The transaction that a packet brings: none where the packet is to be discarded or holds no
/// transaction.
pub open spec fn live_transaction(packet: Packet) -> Option<VersionedTransaction> {
    if solana::packet_discarded(packet) {
        None
    } else {
        solana::packet_transaction(packet)
    }
}

/// The transactions that a list of packets brings, in order.
pub open spec fn packet_transactions(packets: Seq<Packet>) -> Seq<VersionedTransaction> {
    packets.filter_map(|packet: Packet| live_transaction(packet))
}

/// The transactions that a list of batches brings, batch after batch.
pub open spec fn live_transactions(batches: Seq<PacketBatch>) -> Seq<VersionedTransaction> {
    batches.flat_map(|batch: PacketBatch| packet_transactions(solana::batch_packets(batch)))
}

/// One more batch adds its own transactions behind those of the batches before it.
proof fn lemma_live_transactions_push(batches: Seq<PacketBatch>, batch: PacketBatch)
    ensures
        live_transactions(batches.push(batch)) == live_transactions(batches)
            + packet_transactions(solana::batch_packets(batch)),
{
    let per_batch = |batch: PacketBatch| packet_transactions(solana::batch_packets(batch));
    let lists = batches.map_values(per_batch);
    let longer = batches.push(batch).map_values(per_batch);
    assert(longer.drop_last() == lists);
    lists.lemma_flatten_and_flatten_alt_are_equivalent();
    longer.lemma_flatten_and_flatten_alt_are_equivalent();
}

/// A decoded transaction whose address table lookups are still to be resolved.
#[derive(Debug)]
pub struct PendingTransaction {
    transaction: VersionedTransaction,
    lookups: Option<Vec<AddressTableLookup>>,
}

impl PendingTransaction {
    /// The transaction was decoded, so it can be encoded; the lookups are its own.
    #[verifier::type_invariant]
    spec fn well_formed(self) -> bool {
        &&& solana::transaction_bytes(self.transaction) is Some
        &&& solana::lookups_view(self.lookups) == solana::transaction_lookups(self.transaction)
    }

    /// The decoded transaction.
    pub closed spec fn transaction(self) -> VersionedTransaction {
        self.transaction
    }

    /// Decodes the transaction in a packet that is not to be discarded.
    pub fn from_packet(packet: &Packet) -> (pending: Option<PendingTransaction>)
        ensures
            match pending {
                Some(pending) => live_transaction(*packet) == Some(pending.transaction()),
                None => live_transaction(*packet) is None,
            },
    {
        if discarded(packet) {
            return None;
        }
        let transaction = deserialize_transaction(packet)?;
        let lookups = address_table_lookups(&transaction);
        Some(PendingTransaction { transaction, lookups })
    }

    /// The tables and indexes that the transaction takes addresses from; `None` for a message of
    /// the legacy form, which takes none.
    pub fn lookups(&self) -> (lookups: &Option<Vec<AddressTableLookup>>)
        ensures
            solana::lookups_view(*lookups) == solana::transaction_lookups(self.transaction()),
    {
        proof {
            use_type_invariant(self);
        }
        &self.lookups
    }

    /// Sanitizes the transaction with the addresses that its lookups gave, and puts it in the
    /// block engine's form.
    pub fn sanitize(self, loaded: Option<LoadedAddresses>) -> (proto: Option<
        ProtoSanitizedTransaction,
    >)
        ensures
            proto matches Some(proto) ==> proto.message_hash@.len() == 32,
            match proto {
                Some(proto) => accepted_transaction(
                    self.transaction(),
                    solana::loaded_view(loaded),
                ) == Some(proto@),
                None => accepted_transaction(
                    self.transaction(),
                    solana::loaded_view(loaded),
                ) is None,
            },
    {
        proof {
            use_type_invariant(&self);
        }
        let sanitized = try_create(self.transaction, loaded)?;
        sanitized_to_proto_sanitized(sanitized)
    }
}

/// The addresses that a transaction goes out with: those that its lookups gave, and none for a
/// message of the legacy form.
pub open spec fn addresses_used(
    transaction: VersionedTransaction,
    loaded: Option<solana::LoadedAddressesView>,
) -> solana::LoadedAddressesView {
    match (solana::transaction_lookups(transaction), loaded) {
        (Some(_), Some(loaded)) => loaded,
        _ => solana::no_addresses(),
    }
}

/// The block engine's form of a transaction whose lookups gave `loaded`: the transaction itself,
/// the hash of its message, and the addresses that it goes out with. There is none where the
/// transaction cannot be sanitized.
pub open spec fn accepted_transaction(
    transaction: VersionedTransaction,
    loaded: Option<solana::LoadedAddressesView>,
) -> Option<ProtoSanitizedTransactionView> {
    match solana::sanitized_transaction(transaction, loaded) {
        Some(sanitized) => proto_from_parts(
            solana::transaction_bytes(transaction),
            solana::sanitized_message_hash(sanitized),
            Some(solana::encoded_addresses(addresses_used(transaction, loaded))),
        ),
        None => None,
    }
}

/// The decoded transactions of a list.
pub open spec fn pending_view(pending: Seq<PendingTransaction>) -> Seq<VersionedTransaction> {
    pending.map_values(|transaction: PendingTransaction| transaction.transaction())
}

/// A transaction with the answer to its lookups.
pub type ResolvedTransaction = (PendingTransaction, Option<LoadedAddresses>);

/// What a [`ResolvedTransaction`] holds.
pub type ResolvedTransactionView = (VersionedTransaction, Option<solana::LoadedAddressesView>);

/// What each of a list of transactions with their answers holds.
pub open spec fn resolved_view(resolved: Seq<ResolvedTransaction>) -> Seq<ResolvedTransactionView> {
    resolved.map_values(
        |one: ResolvedTransaction| (one.0.transaction(), solana::loaded_view(one.1)),
    )
}

/// What each of a list of answers holds.
pub open spec fn answers_view(answers: Seq<Option<LoadedAddresses>>) -> Seq<
    Option<solana::LoadedAddressesView>,
> {
    answers.map_values(|answer: Option<LoadedAddresses>| solana::loaded_view(answer))
}

/// The block engine's form of those of a list of transactions that are accepted, in order.
pub open spec fn accepted_transactions(resolved: Seq<ResolvedTransactionView>) -> Seq<
    ProtoSanitizedTransactionView,
> {
    resolved.filter_map(|one: ResolvedTransactionView| accepted_transaction(one.0, one.1))
}

/// Decodes the transactions in a list of batches.
pub fn pending_transactions(batches: &Vec<PacketBatch>) -> (pending: Vec<PendingTransaction>)
    ensures
        pending_view(pending@) == live_transactions(batches@),
{
    let mut pending: Vec<PendingTransaction> = Vec::new();
    let mut b: usize = 0;
    while b < batches.len()
        invariant
            b <= batches@.len(),
            pending_view(pending@) == live_transactions(batches@.take(b as int)),
        decreases batches@.len() - b,
    {
        let batch = &batches[b];
        let len = batch.len();
        let ghost packets = solana::batch_packets(*batch);
        let ghost before = live_transactions(batches@.take(b as int));
        let mut p: usize = 0;
        while p < len
            invariant
                p <= len,
                len == packets.len(),
                packets == solana::batch_packets(*batch),
                pending_view(pending@) == before + packet_transactions(packets.take(p as int)),
            decreases len - p,
        {
            assert(packets.take(p + 1).drop_last() == packets.take(p as int));
            let ghost earlier = pending@;
            match PendingTransaction::from_packet(packet_at(batch, p)) {
                Some(transaction) => {
                    pending.push(transaction);
                    assert(pending_view(pending@) == pending_view(earlier).push(
                        transaction.transaction(),
                    ));
                },
                None => {},
            }
            p += 1;
        }
        proof {
            assert(packets.take(len as int) == packets);
            assert(batches@.take(b + 1) == batches@.take(b as int).push(*batch));
            lemma_live_transactions_push(batches@.take(b as int), *batch);
        }
        b += 1;
    }
    assert(batches@.take(b as int) == batches@);
    pending
}

/// Puts each transaction of a list together with its answer: the first with the first, and so on.
pub fn resolve_transactions(
    pending: Vec<PendingTransaction>,
    answers: Vec<Option<LoadedAddresses>>,
) -> (resolved: Vec<ResolvedTransaction>)
    requires
        pending@.len() == answers@.len(),
    ensures
        resolved_view(resolved@) == pending_view(pending@).zip_with(answers_view(answers@)),
        resolved@.len() == pending@.len(),
        forall|i: int|
            #![trigger resolved@[i]]
            0 <= i < resolved@.len() ==> resolved@[i].0 == pending@[i] && resolved@[i].1
                == answers@[i],
{
    let ghost given = answers@;
    let mut answers = answers;
    let mut resolved: Vec<ResolvedTransaction> = Vec::new();
    for transaction in iter: pending
        invariant
            iter.seq() == pending@,
            pending@.len() == given.len(),
            answers@.len() == given.len(),
            resolved@.len() == iter.index(),
            forall|i: int| iter.index() <= i < given.len() ==> answers@[i] == given[i],
            forall|i: int|
                #![trigger resolved@[i]]
                0 <= i < resolved@.len() ==> resolved@[i].0 == pending@[i] && resolved@[i].1
                    == given[i],
    {
        let index: usize = resolved.len();
        let mut answer: Option<LoadedAddresses> = None;
        std::mem::swap(&mut answer, &mut answers[index]);
        let ghost earlier = resolved@;
        resolved.push((transaction, answer));
        assert(resolved@ == earlier.push((transaction, given[index as int])));
    }
    resolved
}

/// Sanitizes a list of transactions, and keeps those that are accepted.
pub fn sanitize_transactions(resolved: Vec<ResolvedTransaction>) -> (transactions: Vec<
    ProtoSanitizedTransaction,
>)
    ensures
        protos_view(transactions@) == accepted_transactions(resolved_view(resolved@)),
{
    let ghost view = resolved_view(resolved@);
    let mut transactions: Vec<ProtoSanitizedTransaction> = Vec::new();
    for one in iter: resolved
        invariant
            iter.seq() == resolved@,
            view == resolved_view(resolved@),
            protos_view(transactions@) == accepted_transactions(view.take(iter.index() as int)),
    {
        let ghost index = iter.index() as int;
        let ghost earlier = transactions@;
        assert(view.take(index + 1).drop_last() == view.take(index));
        match one.0.sanitize(one.1) {
            Some(transaction) => {
                transactions.push(transaction);
                assert(protos_view(transactions@) == protos_view(earlier).push(transaction@));
            },
            None => {},
        }
    }
    assert(view.take(view.len() as int) == view);
    transactions
}

/// The transactions of a list of batches are those of its first part, and then those of the rest.
pub proof fn transactions_come_in_order(first: Seq<PacketBatch>, second: Seq<PacketBatch>)
    ensures
        live_transactions(first + second) == live_transactions(first) + live_transactions(second),
    decreases second.len(),
{
    if second.len() == 0 {
        assert(first + second == first);
        assert(second.map_values(
            |batch: PacketBatch| packet_transactions(solana::batch_packets(batch)),
        ) == Seq::<Seq<VersionedTransaction>>::empty());
        assert(live_transactions(second) == Seq::<VersionedTransaction>::empty());
    } else {
        let batch = second.last();
        transactions_come_in_order(first, second.drop_last());
        lemma_live_transactions_push(first + second.drop_last(), batch);
        lemma_live_transactions_push(second.drop_last(), batch);
        assert((first + second.drop_last()).push(batch) == first + second);
        assert(second.drop_last().push(batch) == second);
    }
}

/// Transactions are accepted one by one: what is accepted of a list is what is accepted of its
/// first part, and then what is accepted of the rest.
pub proof fn transactions_are_accepted_one_by_one(
    first: Seq<ResolvedTransactionView>,
    second: Seq<ResolvedTransactionView>,
)
    ensures
        accepted_transactions(first + second) == accepted_transactions(first)
            + accepted_transactions(second),
        accepted_transactions(first).len() <= first.len(),
    decreases first.len() + second.len(),
{
    if second.len() > 0 {
        transactions_are_accepted_one_by_one(first, second.drop_last());
        assert((first + second).drop_last() == first + second.drop_last());
        assert((first + second).last() == second.last());
    } else {
        assert(first + second == first);
        if first.len() > 0 {
            transactions_are_accepted_one_by_one(first.drop_last(), second);
        }
    }
}

/// A packet that is to be discarded brings nothing, and any other brings what it encodes. A list of
/// packets brings what its first packet brings, and then what the rest brings; and so with batches,
/// each of which brings what its packets bring.
pub proof fn packets_are_read_one_by_one(packet: Packet, rest: Seq<Packet>, batch: PacketBatch)
    ensures
        solana::packet_discarded(packet) ==> live_transaction(packet) is None,
        !solana::packet_discarded(packet) ==> live_transaction(packet)
            == solana::packet_transaction(packet),
        packet_transactions(Seq::empty()) == Seq::<VersionedTransaction>::empty(),
        packet_transactions(seq![packet] + rest) == match live_transaction(packet) {
            Some(transaction) => seq![transaction] + packet_transactions(rest),
            None => packet_transactions(rest),
        },
        live_transactions(Seq::empty()) == Seq::<VersionedTransaction>::empty(),
        live_transactions(seq![batch]) == packet_transactions(solana::batch_packets(batch)),
    decreases rest.len(),
{
    let per_batch = |batch: PacketBatch| packet_transactions(solana::batch_packets(batch));
    assert(Seq::<PacketBatch>::empty().map_values(per_batch) == Seq::<
        Seq<VersionedTransaction>,
    >::empty());
    assert(live_transactions(Seq::empty()) == Seq::<VersionedTransaction>::empty());
    lemma_live_transactions_push(Seq::empty(), batch);
    assert(Seq::<PacketBatch>::empty().push(batch) == seq![batch]);
    if rest.len() == 0 {
        assert((seq![packet] + rest).drop_last() == Seq::<Packet>::empty());
        reveal_with_fuel(Seq::filter_map, 2);
    } else {
        packets_are_read_one_by_one(packet, rest.drop_last(), batch);
        assert((seq![packet] + rest).drop_last() == seq![packet] + rest.drop_last());
        assert((seq![packet] + rest).last() == rest.last());
    }
}

/// A transaction is accepted if and only if it can be sanitized with the addresses that its lookups
/// gave, and can be encoded. What goes out is the transaction itself, the hash of its message, and
/// the addresses that its own lookups gave; a message without a place for lookups goes out with
/// none.
pub proof fn transactions_go_out_as_they_are(
    transaction: VersionedTransaction,
    loaded: Option<solana::LoadedAddressesView>,
)
    ensures
        accepted_transaction(transaction, loaded) is Some <==> {
            &&& solana::sanitized_transaction(transaction, loaded) is Some
            &&& solana::transaction_bytes(transaction) is Some
        },
        accepted_transaction(transaction, loaded) matches Some(proto) ==> {
            &&& solana::transaction_bytes(transaction) == Some(proto.versioned_transaction)
            &&& solana::sanitized_transaction(transaction, loaded) matches Some(sanitized)
                && proto.message_hash == solana::sanitized_message_hash(sanitized)
            &&& solana::transaction_lookups(transaction) is Some && loaded is Some
                ==> proto.loaded_addresses == solana::encoded_addresses(loaded->0)
            &&& solana::transaction_lookups(transaction) is None ==> proto.loaded_addresses
                == solana::encoded_addresses(
                solana::LoadedAddressesView { writable: Seq::empty(), readonly: Seq::empty() },
            )
        },
{
}

/// The block engine's form of a sanitized transaction has the bytes of the transaction that was
/// sanitized, the hash of its message, and the bytes of its addresses, each in its place. There is
/// one if and only if the transaction can be encoded.
pub proof fn sanitized_transactions_keep_their_parts(sanitized: SanitizedTransaction)
    ensures
        proto_sanitized(sanitized) is Some <==> solana::transaction_bytes(
            solana::versioned_transaction(sanitized),
        ) is Some,
        proto_sanitized(sanitized) matches Some(proto) ==> {
            &&& solana::transaction_bytes(solana::versioned_transaction(sanitized)) == Some(
                proto.versioned_transaction,
            )
            &&& proto.message_hash == solana::sanitized_message_hash(sanitized)
            &&& proto.loaded_addresses == solana::encoded_addresses(
                solana::sanitized_addresses(sanitized),
            )
        },
{
}

/// What is accepted of a list is what is accepted of its first transaction, with its own answer, and
/// then what is accepted of the rest.
pub proof fn the_first_is_accepted_first(
    transaction: VersionedTransaction,
    answer: Option<solana::LoadedAddressesView>,
    rest: Seq<ResolvedTransactionView>,
)
    ensures
        accepted_transactions(Seq::empty()) == Seq::<ProtoSanitizedTransactionView>::empty(),
        accepted_transactions(seq![(transaction, answer)] + rest) == match accepted_transaction(
            transaction,
            answer,
        ) {
            Some(proto) => seq![proto] + accepted_transactions(rest),
            None => accepted_transactions(rest),
        },
{
    let first = seq![(transaction, answer)];
    transactions_are_accepted_one_by_one(first, rest);
    assert(first.drop_last() == Seq::<ResolvedTransactionView>::empty());
    reveal_with_fuel(Seq::filter_map, 2);
}

/// What a list holds is what its elements hold, one by one and in order.
pub proof fn transactions_are_seen_one_by_one(
    protos: Seq<ProtoSanitizedTransaction>,
    pending: Seq<PendingTransaction>,
    answers: Seq<Option<LoadedAddresses>>,
    resolved: Seq<ResolvedTransaction>,
)
    ensures
        protos_view(protos).len() == protos.len(),
        forall|i: int|
            0 <= i < protos.len() ==> {
                &&& (#[trigger] protos_view(protos)[i]).versioned_transaction
                    == protos[i].versioned_transaction@
                &&& protos_view(protos)[i].message_hash == protos[i].message_hash@
                &&& protos_view(protos)[i].loaded_addresses == protos[i].loaded_addresses@
            },
        pending_view(pending).len() == pending.len(),
        forall|i: int|
            0 <= i < pending.len() ==> #[trigger] pending_view(pending)[i]
                == pending[i].transaction(),
        answers_view(answers).len() == answers.len(),
        forall|i: int|
            0 <= i < answers.len() ==> #[trigger] answers_view(answers)[i] == solana::loaded_view(
                answers[i],
            ),
        resolved_view(resolved).len() == resolved.len(),
        forall|i: int|
            0 <= i < resolved.len() ==> #[trigger] resolved_view(resolved)[i] == (
            resolved[i].0.transaction(), solana::loaded_view(resolved[i].1)),
{
}

} // verus!
