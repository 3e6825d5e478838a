//! The bundles that the block engine sends.
use vstd::prelude::*;

use crate::error::PbsError;
use crate::solana;
use crate::solana::clone_batch;
use crate::stats;
use crate::stats::PbsStageStats;
use solana_perf::packet::PacketBatch;
use solana_sdk::packet::Packet;
use tonic::Status;

verus! {

/// A bundle as the block engine's stream brings it.
#[derive(Debug)]
pub struct Bundle {
    pub uuid: String,
    pub packets: Vec<Packet>,
}

/// One message of the block engine's stream.
#[derive(Debug)]
pub struct BundlesResponse {
    pub bundles: Vec<Bundle>,
}

/// A bundle on its way to the bundle stage.
#[derive(Debug)]
pub struct PacketBundle {
    batch: PacketBatch,
    bundle_id: String,
}

/// What a bundle holds: its packets in order, and its id.
#[verifier::ext_equal]
pub struct BundleView {
    pub packets: Seq<Packet>,
    pub bundle_id: Seq<char>,
}

impl View for Bundle {
    type V = BundleView;

    open spec fn view(&self) -> BundleView {
        BundleView { packets: self.packets@, bundle_id: self.uuid@ }
    }
}

impl View for PacketBundle {
    type V = BundleView;

    closed spec fn view(&self) -> BundleView {
        BundleView { packets: solana::batch_packets(self.batch), bundle_id: self.bundle_id@ }
    }
}

/// What each of a list of received bundles holds.
pub open spec fn received_view(bundles: Seq<Bundle>) -> Seq<BundleView> {
    bundles.map_values(|bundle: Bundle| bundle@)
}

/// What each of a list of bundles holds.
pub open spec fn bundles_view(bundles: Seq<PacketBundle>) -> Seq<BundleView> {
    bundles.map_values(|bundle: PacketBundle| bundle@)
}

/// The number of packets in a list of bundles.
pub open spec fn packet_count(bundles: Seq<BundleView>) -> nat
    decreases bundles.len(),
{
    if bundles.len() == 0 {
        0
    } else {
        packet_count(bundles.drop_last()) + bundles.last().packets.len()
    }
}

/// The counters after a list of bundles has come in.
pub open spec fn with_bundles(stats: PbsStageStats, bundles: Seq<BundleView>) -> PbsStageStats {
    PbsStageStats {
        num_bundles: stats::saturating_sum(stats.num_bundles, bundles.len()),
        num_bundle_packets: stats::saturating_sum(
            stats.num_bundle_packets,
            packet_count(bundles),
        ),
        ..stats
    }
}

impl PacketBundle {
    /// The packets lie in ordinary memory.
    #[verifier::type_invariant]
    spec fn unpinned(self) -> bool {
        !solana::batch_pinned(self.batch)
    }

    /// Puts packets in a bundle.
    pub fn new(packets: Vec<Packet>, bundle_id: String) -> (bundle: PacketBundle)
        ensures
            bundle@.packets == packets@,
            bundle@.bundle_id == bundle_id@,
    {
        PacketBundle { batch: PacketBatch::new(packets), bundle_id }
    }

    /// The number of packets.
    pub fn len(&self) -> (len: usize)
        ensures
            len == self@.packets.len(),
    {
        self.batch.len()
    }

    /// The batch and the id.
    pub fn into_parts(self) -> (parts: (PacketBatch, String))
        ensures
            solana::batch_packets(parts.0) == self@.packets,
            parts.1@ == self@.bundle_id,
    {
        (self.batch, self.bundle_id)
    }
}

impl Clone for PacketBundle {
    fn clone(&self) -> (copy: Self)
        ensures
            copy@ == self@,
    {
        proof {
            use_type_invariant(self);
        }
        PacketBundle { batch: clone_batch(&self.batch), bundle_id: self.bundle_id.clone() }
    }
}

/// Takes the outcome of a read of the block engine's stream: an error or the end of the stream
/// ends the session, and the bundles of a message are counted and handed on in order.
pub fn handle_maybe_bundles(
    maybe_bundles_response: Result<Option<BundlesResponse>, Status>,
    pbs_stats: &mut PbsStageStats,
) -> (bundles: Result<Vec<PacketBundle>, PbsError>)
    ensures
        match maybe_bundles_response {
            Err(status) => bundles == Err::<Vec<PacketBundle>, PbsError>(
                PbsError::GrpcError(status),
            ) && *final(pbs_stats) == *old(pbs_stats),
            Ok(None) => bundles == Err::<Vec<PacketBundle>, PbsError>(
                PbsError::GrpcStreamDisconnected,
            ) && *final(pbs_stats) == *old(pbs_stats),
            Ok(Some(response)) => {
                &&& bundles is Ok
                &&& bundles_view(bundles->Ok_0@) == received_view(response.bundles@)
                &&& bundles->Ok_0@.len() == response.bundles@.len()
                &&& forall|i: int|
                    0 <= i < response.bundles@.len() ==> {
                        &&& (#[trigger] bundles->Ok_0@[i])@.packets == response.bundles@[i].packets@
                        &&& bundles->Ok_0@[i]@.bundle_id == response.bundles@[i].uuid@
                    }
                &&& *final(pbs_stats) == with_bundles(
                    *old(pbs_stats),
                    received_view(response.bundles@),
                )
            },
        },
{
    let bundles_response = match maybe_bundles_response {
        Err(status) => {
            return Err(PbsError::GrpcError(status));
        },
        Ok(None) => {
            return Err(PbsError::GrpcStreamDisconnected);
        },
        Ok(Some(bundles_response)) => bundles_response,
    };
    let ghost received = bundles_response.bundles@;
    let mut bundles: Vec<PacketBundle> = Vec::new();
    let mut num_packets: u64 = 0;
    for bundle in iter: bundles_response.bundles
        invariant
            iter.seq() == received,
            bundles_view(bundles@) == received_view(received.take(iter.index() as int)),
            num_packets == stats::saturating_sum(
                0,
                packet_count(received_view(received.take(iter.index() as int))),
            ),
    {
        let ghost index = iter.index() as int;
        let ghost earlier = bundles@;
        let bundle = PacketBundle::new(bundle.packets, bundle.uuid);
        num_packets = num_packets.saturating_add(bundle.len() as u64);
        bundles.push(bundle);
        proof {
            let view = received_view(received.take(index + 1));
            assert(bundles_view(bundles@) == bundles_view(earlier).push(bundle@));
            assert(received_view(received.take(index)).push(received[index]@) == view);
            assert(view.drop_last() == received_view(received.take(index)));
        }
    }
    assert(received.take(received.len() as int) == received);
    assert forall|i: int| 0 <= i < received.len() implies {
        &&& (#[trigger] bundles@[i])@.packets == received[i].packets@
        &&& bundles@[i]@.bundle_id == received[i].uuid@
    } by {
        assert(bundles_view(bundles@)[i] == received_view(received)[i]);
    }
    pbs_stats.num_bundles = pbs_stats.num_bundles.saturating_add(bundles.len() as u64);
    pbs_stats.num_bundle_packets = pbs_stats.num_bundle_packets.saturating_add(num_packets);
    Ok(bundles)
}

/// The packets of two lists of bundles are counted together.
proof fn lemma_packet_count_add(first: Seq<BundleView>, second: Seq<BundleView>)
    ensures
        packet_count(first + second) == packet_count(first) + packet_count(second),
    decreases second.len(),
{
    if second.len() == 0 {
        assert(first + second == first);
    } else {
        lemma_packet_count_add(first, second.drop_last());
        assert((first + second).drop_last() == first + second.drop_last());
        assert((first + second).last() == second.last());
    }
}

/// Bundles count the same whether they come in one message or in two.
pub proof fn bundles_are_counted_once(
    stats: PbsStageStats,
    first: Seq<BundleView>,
    second: Seq<BundleView>,
)
    ensures
        with_bundles(with_bundles(stats, first), second) == with_bundles(stats, first + second),
{
    lemma_packet_count_add(first, second);
}

/// A list without bundles has no packets, and a bundle has as many as it holds.
pub proof fn packets_are_counted(bundles: Seq<BundleView>, bundle: BundleView)
    ensures
        packet_count(Seq::empty()) == 0,
        packet_count(bundles.push(bundle)) == packet_count(bundles) + bundle.packets.len(),
{
    assert(bundles.push(bundle).drop_last() == bundles);
}

/// Bundles that come in raise the number of bundles by how many they are and the number of their
/// packets by how many those are, up to the limit of a counter, and no other counter.
pub proof fn bundles_raise_two_counters(stats: PbsStageStats, bundles: Seq<BundleView>)
    ensures
        stats.num_bundles + bundles.len() <= u64::MAX ==> with_bundles(stats, bundles).num_bundles
            == stats.num_bundles + bundles.len(),
        stats.num_bundles + bundles.len() > u64::MAX ==> with_bundles(stats, bundles).num_bundles
            == u64::MAX,
        stats.num_bundle_packets + packet_count(bundles) <= u64::MAX ==> with_bundles(
            stats,
            bundles,
        ).num_bundle_packets == stats.num_bundle_packets + packet_count(bundles),
        stats.num_bundle_packets + packet_count(bundles) > u64::MAX ==> with_bundles(
            stats,
            bundles,
        ).num_bundle_packets == u64::MAX,
        with_bundles(stats, bundles) == (PbsStageStats {
            num_bundles: with_bundles(stats, bundles).num_bundles,
            num_bundle_packets: with_bundles(stats, bundles).num_bundle_packets,
            ..stats
        }),
{
}

/// What a list of bundles holds is what its bundles hold, one by one and in order; a bundle that
/// came in holds its packets and its id as they came.
pub proof fn bundles_are_seen_one_by_one(came: Seq<Bundle>, bundles: Seq<PacketBundle>)
    ensures
        received_view(came).len() == came.len(),
        forall|i: int|
            0 <= i < came.len() ==> {
                &&& (#[trigger] received_view(came)[i]).packets == came[i].packets@
                &&& received_view(came)[i].bundle_id == came[i].uuid@
            },
        bundles_view(bundles).len() == bundles.len(),
        forall|i: int|
            0 <= i < bundles.len() ==> #[trigger] bundles_view(bundles)[i] == bundles[i]@,
{
}

} // verus!
