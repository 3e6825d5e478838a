//! The Solana values that pass through the stage, and the calls that compute on them.
//!
//! Packets, batches and transactions are carried as the SDK's own values. Verus sees nothing
//! inside them: what the stage learns of one comes from the calls below, and each of those calls
//! has a name by which contracts speak of its result.
use vstd::prelude::*;

use solana_perf::packet::PacketBatch;
use solana_sdk::message::v0;
use solana_sdk::message::SimpleAddressLoader;
use solana_sdk::packet::Packet;
use solana_sdk::pubkey::Pubkey;
use solana_sdk::transaction::{MessageHash, SanitizedTransaction, VersionedTransaction};

verus! {

#[verifier::external_type_specification]
#[verifier::external_body]
pub struct ExPacket(Packet);

#[verifier::external_type_specification]
#[verifier::external_body]
pub struct ExPacketBatch(PacketBatch);

#[verifier::external_type_specification]
#[verifier::external_body]
pub struct ExVersionedTransaction(VersionedTransaction);

#[verifier::external_type_specification]
#[verifier::external_body]
pub struct ExSanitizedTransaction(SanitizedTransaction);

/// The bytes of each key of a list.
pub open spec fn key_bytes(keys: Seq<[u8; 32]>) -> Seq<Seq<u8>> {
    keys.map_values(|key: [u8; 32]| key@)
}

/// The accounts that a transaction takes from one on-chain address table.
#[derive(Debug)]
pub struct AddressTableLookup {
    pub account_key: [u8; 32],
    pub writable_indexes: Vec<u8>,
    pub readonly_indexes: Vec<u8>,
}

/// What an [`AddressTableLookup`] holds.
#[verifier::ext_equal]
pub struct AddressTableLookupView {
    pub account_key: Seq<u8>,
    pub writable_indexes: Seq<u8>,
    pub readonly_indexes: Seq<u8>,
}

impl View for AddressTableLookup {
    type V = AddressTableLookupView;

    open spec fn view(&self) -> AddressTableLookupView {
        AddressTableLookupView {
            account_key: self.account_key@,
            writable_indexes: self.writable_indexes@,
            readonly_indexes: self.readonly_indexes@,
        }
    }
}

/// What the lookups of a transaction hold; `None` where its message has no place for any.
pub open spec fn lookups_view(lookups: Option<Vec<AddressTableLookup>>) -> Option<
    Seq<AddressTableLookupView>,
> {
    match lookups {
        Some(lookups) => Some(lookups@.map_values(|lookup: AddressTableLookup| lookup@)),
        None => None,
    }
}

/// The addresses that a bank found for the lookups of one transaction.
#[derive(Debug)]
pub struct LoadedAddresses {
    pub writable: Vec<[u8; 32]>,
    pub readonly: Vec<[u8; 32]>,
}

/// What a [`LoadedAddresses`] holds.
#[verifier::ext_equal]
pub struct LoadedAddressesView {
    pub writable: Seq<Seq<u8>>,
    pub readonly: Seq<Seq<u8>>,
}

impl View for LoadedAddresses {
    type V = LoadedAddressesView;

    open spec fn view(&self) -> LoadedAddressesView {
        LoadedAddressesView {
            writable: key_bytes(self.writable@),
            readonly: key_bytes(self.readonly@),
        }
    }
}

/// What a bank answered: the addresses, or `None` where it could not find them all.
pub open spec fn loaded_view(loaded: Option<LoadedAddresses>) -> Option<LoadedAddressesView> {
    match loaded {
        Some(loaded) => Some(loaded@),
        None => None,
    }
}

/// The addresses of a transaction that loads none.
pub open spec fn no_addresses() -> LoadedAddressesView {
    LoadedAddressesView { writable: Seq::empty(), readonly: Seq::empty() }
}

/// A list of keys in bincode's fixed-width form: the count as eight little-endian bytes, then
/// the keys one after the other.
pub open spec fn encoded_keys(keys: Seq<Seq<u8>>) -> Seq<u8> {
    vstd::bytes::spec_u64_to_le_bytes(keys.len() as u64) + keys.flatten()
}

/// Loaded addresses in bincode's fixed-width form: the writable ones, then the read-only ones.
pub open spec fn encoded_addresses(loaded: LoadedAddressesView) -> Seq<u8> {
    encoded_keys(loaded.writable) + encoded_keys(loaded.readonly)
}

/// The packets of a batch, in order.
pub uninterp spec fn batch_packets(batch: PacketBatch) -> Seq<Packet>;

/// Whether the memory of a batch is page-pinned for a GPU.
pub uninterp spec fn batch_pinned(batch: PacketBatch) -> bool;

/// Whether a packet's metadata marks it as one to discard.
pub uninterp spec fn packet_discarded(packet: Packet) -> bool;

/// The transaction that the payload of a packet encodes, if it encodes one.
pub uninterp spec fn packet_transaction(packet: Packet) -> Option<VersionedTransaction>;

/// The address table lookups of a transaction; `None` for a message of the legacy form.
pub uninterp spec fn transaction_lookups(transaction: VersionedTransaction) -> Option<
    Seq<AddressTableLookupView>,
>;

/// The bincode form of a transaction; `None` where one of its lists is too long to encode.
pub uninterp spec fn transaction_bytes(transaction: VersionedTransaction) -> Option<Seq<u8>>;

/// The sanitized form of a transaction whose lookups gave `loaded`; `None` where the transaction
/// is malformed, or needs addresses that are not there.
pub uninterp spec fn sanitized_transaction(
    transaction: VersionedTransaction,
    loaded: Option<LoadedAddressesView>,
) -> Option<SanitizedTransaction>;

/// The transaction that was sanitized.
pub uninterp spec fn versioned_transaction(sanitized: SanitizedTransaction) -> VersionedTransaction;

/// The hash of the message of a sanitized transaction.
pub uninterp spec fn sanitized_message_hash(sanitized: SanitizedTransaction) -> Seq<u8>;

/// The addresses with which a transaction was sanitized.
pub uninterp spec fn sanitized_addresses(sanitized: SanitizedTransaction) -> LoadedAddressesView;

/// `PacketBatch::new`: the batch holds the given packets in the given order, in memory that is
/// not pinned.
pub assume_specification[ PacketBatch::new ](contents: Vec<Packet>) -> (batch: PacketBatch)
    ensures
        batch_packets(batch) == contents@,
        !batch_pinned(batch),
;

/// `PacketBatch::len`: the number of packets.
pub assume_specification[ PacketBatch::len ](batch: &PacketBatch) -> (len: usize)
    ensures
        len == batch_packets(*batch).len(),
;

/// `PacketBatch::clone`: a batch of equal packets in the same order. A batch in pinned memory is
/// left out, since its copy is registered with the GPU driver, which may fail.
#[verifier::external_body]
pub(crate) fn clone_batch(batch: &PacketBatch) -> (copy: PacketBatch)
    requires
        !batch_pinned(*batch),
    ensures
        batch_packets(copy) == batch_packets(*batch),
        !batch_pinned(copy),
{
    batch.clone()
}

/// `PacketBatch::index`: the packet at a position.
#[verifier::external_body]
pub(crate) fn packet_at(batch: &PacketBatch, index: usize) -> (packet: &Packet)
    requires
        index < batch_packets(*batch).len(),
    ensures
        *packet == batch_packets(*batch)[index as int],
{
    &batch[index]
}

/// `Meta::discard`, on the metadata of a packet: a function of the packet.
#[verifier::external_body]
pub(crate) fn discarded(packet: &Packet) -> (discard: bool)
    ensures
        discard == packet_discarded(*packet),
{
    packet.meta().discard()
}

/// `Packet::deserialize_slice`, over the whole payload: a function of the packet. A packet that
/// is marked to be discarded gives nothing. Each list in what it gives has a length that was read
/// as a 16-bit number, so it can be encoded again.
#[verifier::external_body]
pub(crate) fn deserialize_transaction(packet: &Packet) -> (transaction: Option<
    VersionedTransaction,
>)
    ensures
        transaction == packet_transaction(*packet),
        packet_discarded(*packet) ==> transaction is None,
        transaction matches Some(transaction) ==> transaction_bytes(transaction) is Some,
{
    packet.deserialize_slice(..).ok()
}

/// `VersionedMessage::address_table_lookups`, on the message of a transaction: a function of the
/// transaction.
#[verifier::external_body]
pub(crate) fn address_table_lookups(transaction: &VersionedTransaction) -> (lookups: Option<
    Vec<AddressTableLookup>,
>)
    ensures
        lookups_view(lookups) == transaction_lookups(*transaction),
{
    transaction.message.address_table_lookups().map(
        |lookups|
            lookups.iter().map(
                |lookup|
                    AddressTableLookup {
                        account_key: lookup.account_key.to_bytes(),
                        writable_indexes: lookup.writable_indexes.clone(),
                        readonly_indexes: lookup.readonly_indexes.clone(),
                    },
            ).collect(),
    )
}

/// `SanitizedTransaction::try_create`, with the message hash computed, the vote flag derived, and
/// a `SimpleAddressLoader` that gives the addresses at hand, or refuses where there are none: a
/// function of the transaction and the addresses. What comes out is the given transaction, with
/// the given addresses where its message has lookups and with none where it has not; a message
/// with lookups and no addresses gives nothing. A transaction that cannot be encoded is left out:
/// hashing its message would panic.
#[verifier::external_body]
pub(crate) fn try_create(
    transaction: VersionedTransaction,
    loaded: Option<LoadedAddresses>,
) -> (sanitized: Option<SanitizedTransaction>)
    requires
        transaction_bytes(transaction) is Some,
    ensures
        sanitized == sanitized_transaction(transaction, loaded_view(loaded)),
        sanitized matches Some(s) ==> versioned_transaction(s) == transaction,
        sanitized matches Some(s) ==> match transaction_lookups(transaction) {
            Some(_) => loaded_view(loaded) == Some(sanitized_addresses(s)),
            None => sanitized_addresses(s) == no_addresses(),
        },
{
    let loader = match loaded {
        Some(addresses) => SimpleAddressLoader::Enabled(
            v0::LoadedAddresses {
                writable: addresses.writable.into_iter().map(Pubkey::from).collect(),
                readonly: addresses.readonly.into_iter().map(Pubkey::from).collect(),
            },
        ),
        None => SimpleAddressLoader::Disabled,
    };
    SanitizedTransaction::try_create(transaction, MessageHash::Compute, None, loader).ok()
}

/// `SanitizedTransaction::to_versioned_transaction`: a function of the sanitized transaction.
pub assume_specification[ SanitizedTransaction::to_versioned_transaction ](
    sanitized: &SanitizedTransaction,
) -> (versioned: VersionedTransaction)
    ensures
        versioned == versioned_transaction(*sanitized),
;

/// `bincode::serialize`, on a transaction: a function of the transaction.
#[verifier::external_body]
pub(crate) fn serialize_transaction(transaction: &VersionedTransaction) -> (bytes: Option<Vec<u8>>)
    ensures
        match bytes {
            Some(bytes) => transaction_bytes(*transaction) == Some(bytes@),
            None => transaction_bytes(*transaction) is None,
        },
{
    bincode::serialize(transaction).ok()
}

/// `SanitizedTransaction::message_hash`, as bytes: a function of the sanitized transaction, 32
/// bytes long.
#[verifier::external_body]
pub(crate) fn message_hash(sanitized: &SanitizedTransaction) -> (hash: Vec<u8>)
    ensures
        hash@ == sanitized_message_hash(*sanitized),
        hash@.len() == 32,
{
    sanitized.message_hash().to_bytes().to_vec()
}

/// `SanitizedTransaction::get_loaded_addresses`: a function of the sanitized transaction.
#[verifier::external_body]
pub(crate) fn get_loaded_addresses(sanitized: &SanitizedTransaction) -> (loaded: LoadedAddresses)
    ensures
        loaded@ == sanitized_addresses(*sanitized),
{
    let loaded = sanitized.get_loaded_addresses();
    LoadedAddresses {
        writable: loaded.writable.into_iter().map(Pubkey::to_bytes).collect(),
        readonly: loaded.readonly.into_iter().map(Pubkey::to_bytes).collect(),
    }
}

/// `bincode::serialize`, on loaded addresses: always succeeds, with the fixed-width form of the
/// two lists.
#[verifier::external_body]
pub(crate) fn serialize_addresses(loaded: &LoadedAddresses) -> (bytes: Option<Vec<u8>>)
    ensures
        bytes is Some,
        bytes->0@ == encoded_addresses(loaded@),
{
    let loaded = v0::LoadedAddresses {
        writable: loaded.writable.iter().copied().map(Pubkey::from).collect(),
        readonly: loaded.readonly.iter().copied().map(Pubkey::from).collect(),
    };
    bincode::serialize(&loaded).ok()
}

/// `Pubkey::try_from`, on raw bytes: 32 bytes are a key, any other number is handed back as the
/// error.
#[verifier::external_body]
pub(crate) fn pubkey_try_from(bytes: Vec<u8>) -> (key: Result<[u8; 32], Vec<u8>>)
    ensures
        key is Ok <==> bytes@.len() == 32,
        match key {
            Ok(key) => key@ == bytes@,
            Err(rest) => rest@ == bytes@,
        },
{
    Pubkey::try_from(bytes).map(|key| key.to_bytes())
}

/// A list of keys is encoded as the number of its keys, in eight bytes, and then its keys as they
/// are, in order: one more key adds its bytes at the end.
pub proof fn keys_are_encoded_in_order(keys: Seq<Seq<u8>>, key: Seq<u8>)
    ensures
        encoded_keys(keys).take(8) == vstd::bytes::spec_u64_to_le_bytes(keys.len() as u64),
        encoded_keys(Seq::empty()).skip(8) == Seq::<u8>::empty(),
        encoded_keys(keys.push(key)).skip(8) == encoded_keys(keys).skip(8) + key,
{
    vstd::bytes::lemma_auto_spec_u64_to_from_le_bytes();
    let longer = keys.push(key);
    keys.lemma_flatten_and_flatten_alt_are_equivalent();
    longer.lemma_flatten_and_flatten_alt_are_equivalent();
    assert(longer.drop_last() == keys);
    assert(encoded_keys(keys).skip(8) == keys.flatten());
    assert(encoded_keys(longer).skip(8) == longer.flatten());
    assert(encoded_keys(Seq::empty()).skip(8) == Seq::<Seq<u8>>::empty().flatten());
}

/// Addresses are encoded with the writable ones first, and are seen key by key, each list in its
/// place.
pub proof fn addresses_keep_their_places(loaded: LoadedAddresses)
    ensures
        encoded_addresses(loaded@) == encoded_keys(loaded@.writable) + encoded_keys(
            loaded@.readonly,
        ),
        loaded@.writable.len() == loaded.writable@.len(),
        loaded@.readonly.len() == loaded.readonly@.len(),
        forall|i: int|
            0 <= i < loaded.writable@.len() ==> #[trigger] loaded@.writable[i]
                == loaded.writable@[i]@,
        forall|i: int|
            0 <= i < loaded.readonly@.len() ==> #[trigger] loaded@.readonly[i]
                == loaded.readonly@[i]@,
        loaded_view(Some(loaded)) == Some(loaded@),
        loaded_view(None) is None,
{
}

} // verus!
