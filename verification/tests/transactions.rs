use pbs_stage::packets::{
    accept_transactions, handle_answered_batch, handle_packet_batch, handle_request_sent,
    PacketBatchStep, RequestReceipt, SanitizedTransactionRequest, Timestamp,
};
use pbs_stage::error::PbsError;
use pbs_stage::solana::LoadedAddresses;
use pbs_stage::stats::PbsStageStats;
use pbs_stage::transaction::{
    pending_transactions, proto_sanitized_from_parts, resolve_transactions, sanitize_transactions,
    sanitized_to_proto_sanitized, PendingTransaction, ProtoSanitizedTransaction,
};
use solana_perf::packet::PacketBatch;
use solana_sdk::instruction::{AccountMeta, Instruction};
use solana_sdk::address_lookup_table::AddressLookupTableAccount;
use solana_sdk::message::{v0, VersionedMessage};
use solana_sdk::packet::Packet;
use solana_sdk::pubkey::Pubkey;
use solana_sdk::signature::{Keypair, Signer};
use solana_sdk::system_transaction;
use solana_sdk::transaction::{SanitizedTransaction, VersionedTransaction};

/// Compares by what is printed, since a gRPC status has no equality of its own.
fn same<T: std::fmt::Debug>(left: T, right: T) {
    assert_eq!(format!("{left:?}"), format!("{right:?}"));
}

fn transfer(lamports: u64) -> VersionedTransaction {
    let from = Keypair::new();
    let to = Pubkey::from([3; 32]);
    VersionedTransaction::from(system_transaction::transfer(&from, &to, lamports, solana_sdk::hash::Hash::default()))
}

/// A transaction that takes one writable and one read-only account from a table.
fn with_lookups() -> VersionedTransaction {
    let payer = Keypair::new();
    let table = AddressLookupTableAccount {
        key: Pubkey::from([9; 32]),
        addresses: vec![
            Pubkey::from([10; 32]),
            Pubkey::from([11; 32]),
            Pubkey::from([12; 32]),
        ],
    };
    let instruction = Instruction::new_with_bytes(
        Pubkey::from([8; 32]),
        &[1, 2, 3],
        vec![
            AccountMeta::new(Pubkey::from([12; 32]), false),
            AccountMeta::new_readonly(Pubkey::from([11; 32]), false),
        ],
    );
    let message =
        v0::Message::try_compile(&payer.pubkey(), &[instruction], &[table], solana_sdk::hash::Hash::default())
            .unwrap();
    VersionedTransaction::try_new(VersionedMessage::V0(message), &[&payer]).unwrap()
}

fn packet(transaction: &VersionedTransaction) -> Packet {
    Packet::from_data(None, transaction).unwrap()
}

fn discarded_packet(transaction: &VersionedTransaction) -> Packet {
    let mut packet = packet(transaction);
    packet.meta_mut().set_discard(true);
    packet
}

fn garbage_packet() -> Packet {
    Packet::from_data(None, [255u8; 7]).unwrap()
}

fn proto(byte: u8) -> ProtoSanitizedTransaction {
    ProtoSanitizedTransaction {
        versioned_transaction: vec![byte],
        message_hash: vec![byte; 32],
        loaded_addresses: vec![0; 16],
    }
}

fn pending(transaction: &VersionedTransaction) -> PendingTransaction {
    PendingTransaction::from_packet(&packet(transaction)).unwrap()
}

fn resolved(transaction: &VersionedTransaction) -> (PendingTransaction, Option<LoadedAddresses>) {
    (pending(transaction), None)
}

#[test]
fn a_packet_brings_its_transaction() {
    let transaction = transfer(5);
    let pending = PendingTransaction::from_packet(&packet(&transaction)).unwrap();
    assert!(pending.lookups().is_none());
    let proto = pending.sanitize(None).unwrap();
    assert_eq!(proto.versioned_transaction, bincode::serialize(&transaction).unwrap());
    assert_eq!(proto.message_hash, transaction.message.hash().to_bytes().to_vec());
    assert_eq!(proto.loaded_addresses, vec![0; 16]);
}

#[test]
fn a_discarded_packet_brings_nothing() {
    assert!(PendingTransaction::from_packet(&discarded_packet(&transfer(5))).is_none());
}

#[test]
fn a_packet_without_a_transaction_brings_nothing() {
    assert!(PendingTransaction::from_packet(&garbage_packet()).is_none());
    assert!(PendingTransaction::from_packet(&Packet::default()).is_none());
}

#[test]
fn a_legacy_transaction_goes_out_without_addresses() {
    let loaded = LoadedAddresses { writable: vec![[1; 32]], readonly: vec![] };
    let pending = PendingTransaction::from_packet(&packet(&transfer(5))).unwrap();
    let proto = pending.sanitize(Some(loaded)).unwrap();
    assert_eq!(proto.loaded_addresses, vec![0; 16]);
}

#[test]
fn lookups_name_the_table_and_its_indexes() {
    let pending = PendingTransaction::from_packet(&packet(&with_lookups())).unwrap();
    let lookups = pending.lookups().as_ref().unwrap();
    assert_eq!(lookups.len(), 1);
    assert_eq!(lookups[0].account_key, [9; 32]);
    assert_eq!(lookups[0].writable_indexes, vec![2]);
    assert_eq!(lookups[0].readonly_indexes, vec![1]);
}

#[test]
fn the_addresses_of_the_lookups_go_out_with_the_transaction() {
    let transaction = with_lookups();
    let pending = PendingTransaction::from_packet(&packet(&transaction)).unwrap();
    let loaded = LoadedAddresses { writable: vec![[12; 32]], readonly: vec![[11; 32]] };
    let proto = pending.sanitize(Some(loaded)).unwrap();
    let mut expected = vec![1, 0, 0, 0, 0, 0, 0, 0];
    expected.extend([12; 32]);
    expected.extend([1, 0, 0, 0, 0, 0, 0, 0]);
    expected.extend([11; 32]);
    assert_eq!(proto.loaded_addresses, expected);
    assert_eq!(proto.versioned_transaction, bincode::serialize(&transaction).unwrap());
    assert_eq!(proto.message_hash, transaction.message.hash().to_bytes().to_vec());
}

#[test]
fn lookups_without_an_answer_are_refused() {
    let pending = PendingTransaction::from_packet(&packet(&with_lookups())).unwrap();
    assert!(pending.sanitize(None).is_none());
}

#[test]
fn a_malformed_transaction_is_refused() {
    let mut transaction = transfer(5);
    transaction.signatures.clear();
    let pending = PendingTransaction::from_packet(&packet(&transaction)).unwrap();
    assert!(pending.sanitize(None).is_none());
}

#[test]
fn a_sanitized_transaction_takes_the_form_of_the_block_engine() {
    let from = Keypair::new();
    let legacy = system_transaction::transfer(&from, &Pubkey::from([3; 32]), 5, solana_sdk::hash::Hash::default());
    let versioned = VersionedTransaction::from(legacy.clone());
    let sanitized = SanitizedTransaction::from_transaction_for_tests(legacy);
    let proto = sanitized_to_proto_sanitized(sanitized).unwrap();
    assert_eq!(proto.versioned_transaction, bincode::serialize(&versioned).unwrap());
    assert_eq!(proto.message_hash, versioned.message.hash().to_bytes().to_vec());
    assert_eq!(proto.loaded_addresses, vec![0; 16]);
}

#[test]
fn both_encodings_are_needed() {
    assert!(proto_sanitized_from_parts(None, vec![1], Some(vec![2])).is_none());
    assert!(proto_sanitized_from_parts(Some(vec![3]), vec![1], None).is_none());
    let proto = proto_sanitized_from_parts(Some(vec![3]), vec![1], Some(vec![2])).unwrap();
    assert_eq!(proto.versioned_transaction, vec![3]);
    assert_eq!(proto.message_hash, vec![1]);
    assert_eq!(proto.loaded_addresses, vec![2]);
}

#[test]
fn transactions_are_read_batch_by_batch() {
    let transactions: Vec<VersionedTransaction> = (1..5).map(transfer).collect();
    let batches = vec![
        PacketBatch::new(vec![packet(&transactions[0]), garbage_packet(), packet(&transactions[1])]),
        PacketBatch::new(vec![]),
        PacketBatch::new(vec![discarded_packet(&transactions[2]), packet(&transactions[3])]),
    ];
    let pending = pending_transactions(&batches);
    let sent: Vec<Vec<u8>> = sanitize_transactions(pending.into_iter().map(|one| (one, None)).collect())
        .into_iter()
        .map(|one| one.versioned_transaction)
        .collect();
    let expected: Vec<Vec<u8>> = [0, 1, 3]
        .iter()
        .map(|index: &usize| bincode::serialize(&transactions[*index]).unwrap())
        .collect();
    assert_eq!(sent, expected);
}

#[test]
fn each_transaction_is_accepted_for_itself() {
    let mut malformed = transfer(2);
    malformed.signatures.clear();
    let good = [transfer(1), transfer(3)];
    let accepted = sanitize_transactions(vec![
        resolved(&good[0]),
        resolved(&malformed),
        resolved(&with_lookups()),
        resolved(&good[1]),
    ]);
    assert_eq!(accepted.len(), 2);
    assert_eq!(accepted[0].versioned_transaction, bincode::serialize(&good[0]).unwrap());
    assert_eq!(accepted[1].versioned_transaction, bincode::serialize(&good[1]).unwrap());
}

#[test]
fn a_batch_past_its_deadline_is_dropped() {
    let mut stats = PbsStageStats::default();
    let batches = vec![PacketBatch::new(vec![packet(&transfer(1))])];
    let step = handle_packet_batch(&batches, 99, 100, &mut stats);
    assert!(matches!(step, PacketBatchStep::Skip));
    assert_eq!(stats, PbsStageStats { num_missing_deadlines: 1, ..PbsStageStats::default() });
}

#[test]
fn a_late_list_without_batches_counts_as_late() {
    let mut stats = PbsStageStats::default();
    handle_packet_batch(&Vec::new(), 99, 100, &mut stats);
    assert_eq!(stats, PbsStageStats { num_missing_deadlines: 1, ..PbsStageStats::default() });
}

#[test]
fn a_list_without_batches_is_dropped() {
    let mut stats = PbsStageStats::default();
    let step = handle_packet_batch(&Vec::new(), 100, 100, &mut stats);
    assert!(matches!(step, PacketBatchStep::Skip));
    assert_eq!(stats, PbsStageStats { num_empty_packet_batches: 1, ..PbsStageStats::default() });
}

#[test]
fn a_batch_in_time_is_decoded() {
    let mut stats = PbsStageStats::default();
    let batches = vec![PacketBatch::new(vec![packet(&transfer(1)), garbage_packet()])];
    match handle_packet_batch(&batches, 100, 100, &mut stats) {
        PacketBatchStep::Resolve(pending) => assert_eq!(pending.len(), 1),
        PacketBatchStep::Skip => panic!("the batch is in time"),
    }
    assert_eq!(stats, PbsStageStats::default());
}

#[test]
fn a_batch_that_gives_no_transaction_is_counted() {
    let mut stats = PbsStageStats::default();
    let refused = handle_answered_batch(vec![pending(&with_lookups())], vec![None], &mut stats);
    assert!(refused.is_none());
    assert!(handle_answered_batch(vec![], vec![], &mut stats).is_none());
    assert_eq!(stats, PbsStageStats { num_empty_tx_batches: 2, ..PbsStageStats::default() });
}

#[test]
fn accepted_transactions_are_handed_on() {
    let mut stats = PbsStageStats::default();
    let accepted =
        handle_answered_batch(vec![pending(&transfer(1))], vec![None], &mut stats).unwrap();
    assert_eq!(accepted.len(), 1);
    assert!(accept_transactions(vec![], &mut stats).is_none());
    let accepted = accept_transactions(vec![proto(1), proto(2)], &mut stats).unwrap();
    assert_eq!(accepted[1].versioned_transaction, vec![2]);
    assert_eq!(stats, PbsStageStats { num_empty_tx_batches: 1, ..PbsStageStats::default() });
}

#[test]
fn a_request_carries_the_time_and_the_transactions() {
    let request = SanitizedTransactionRequest::new(vec![proto(4)], 1_700_000_000, 999_999_999);
    assert_eq!(request.ts, Some(Timestamp { seconds: 1_700_000_000, nanos: 999_999_999 }));
    assert_eq!(request.transactions.len(), 1);
    assert_eq!(request.transactions[0].message_hash, vec![4; 32]);
}

#[test]
fn only_what_was_sent_is_counted() {
    let mut stats = PbsStageStats::default();
    let three = RequestReceipt::of(&vec![proto(1), proto(2), proto(3)]);
    same(handle_request_sent(true, &three, &mut stats), Ok(()));
    same(
        handle_request_sent(false, &RequestReceipt::of(&vec![proto(4)]), &mut stats),
        Err(PbsError::GrpcStreamDisconnected)
    );
    assert_eq!(stats, PbsStageStats { num_sanitized_transactions: 3, ..PbsStageStats::default() });
}

#[test]
fn each_transaction_gets_its_own_answer() {
    let transactions = [with_lookups(), transfer(1), with_lookups()];
    let answer = |byte: u8| {
        Some(LoadedAddresses { writable: vec![[byte; 32]], readonly: vec![[0; 32]] })
    };
    let resolved = resolve_transactions(
        transactions.iter().map(pending).collect(),
        vec![answer(1), None, answer(2)],
    );
    let accepted = sanitize_transactions(resolved);
    assert_eq!(accepted.len(), 3);
    assert_eq!(accepted[0].loaded_addresses[8..40], [1; 32]);
    assert_eq!(accepted[1].loaded_addresses, vec![0; 16]);
    assert_eq!(accepted[2].loaded_addresses[8..40], [2; 32]);
    for (transaction, proto) in transactions.iter().zip(&accepted) {
        assert_eq!(proto.versioned_transaction, bincode::serialize(transaction).unwrap());
    }
}
