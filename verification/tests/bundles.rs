use pbs_stage::bundle::{handle_maybe_bundles, Bundle, BundlesResponse, PacketBundle};
use pbs_stage::error::PbsError;
use pbs_stage::stats::PbsStageStats;
use solana_sdk::packet::Packet;
use tonic::metadata::MetadataMap;
use tonic::{Code, Status};

/// Compares by what is printed, since a gRPC status has no equality of its own.
fn same<T: std::fmt::Debug>(left: T, right: T) {
    assert_eq!(format!("{left:?}"), format!("{right:?}"));
}

/// A status with all its parts.
fn detailed_status() -> Status {
    let mut metadata = MetadataMap::new();
    metadata.insert("retry-after", "7".parse().unwrap());
    Status::with_details_and_metadata(Code::Unavailable, "gone", vec![1, 2, 3].into(), metadata)
}

fn packet(byte: u8) -> Packet {
    Packet::from_data(None, [byte; 4]).unwrap()
}

fn bundle(uuid: &str, bytes: &[u8]) -> Bundle {
    Bundle {
        uuid: uuid.to_string(),
        packets: bytes.iter().map(|byte| packet(*byte)).collect(),
    }
}

fn contents(bundle: PacketBundle) -> (String, Vec<u8>) {
    let (batch, id) = bundle.into_parts();
    (id, batch.iter().map(|packet| packet.data(..).unwrap()[0]).collect())
}

#[test]
fn bundles_keep_their_order_ids_and_packets() {
    let mut stats = PbsStageStats::default();
    let response = BundlesResponse {
        bundles: vec![bundle("one", &[1, 2]), bundle("two", &[]), bundle("three", &[3])],
    };
    let bundles = handle_maybe_bundles(Ok(Some(response)), &mut stats).unwrap();
    let read: Vec<(String, Vec<u8>)> = bundles.into_iter().map(contents).collect();
    assert_eq!(
        read,
        vec![
            ("one".to_string(), vec![1, 2]),
            ("two".to_string(), vec![]),
            ("three".to_string(), vec![3]),
        ]
    );
    assert_eq!(
        stats,
        PbsStageStats { num_bundles: 3, num_bundle_packets: 3, ..PbsStageStats::default() }
    );
}

#[test]
fn a_message_without_bundles_is_in_order() {
    let mut stats = PbsStageStats::default();
    let bundles =
        handle_maybe_bundles(Ok(Some(BundlesResponse { bundles: vec![] })), &mut stats).unwrap();
    assert!(bundles.is_empty());
    assert_eq!(stats, PbsStageStats::default());
}

#[test]
fn the_end_of_the_stream_is_an_error() {
    let mut stats = PbsStageStats::default();
    let result = handle_maybe_bundles(Ok(None), &mut stats);
    same(result.err(), Some(PbsError::GrpcStreamDisconnected));
    assert_eq!(stats, PbsStageStats::default());
}

#[test]
fn a_status_is_an_error() {
    let mut stats = PbsStageStats::default();
    let status = detailed_status();
    let result = handle_maybe_bundles(Err(status.clone()), &mut stats);
    same(result.err(), Some(PbsError::GrpcError(status)));
    assert_eq!(stats, PbsStageStats::default());
}

#[test]
fn bundles_count_the_same_in_one_message_or_in_two() {
    let mut once = PbsStageStats::default();
    let mut twice = PbsStageStats::default();
    let both = vec![bundle("one", &[1, 2]), bundle("two", &[3])];
    handle_maybe_bundles(Ok(Some(BundlesResponse { bundles: both })), &mut once).unwrap();
    for one in [bundle("one", &[1, 2]), bundle("two", &[3])] {
        let response = BundlesResponse { bundles: vec![one] };
        handle_maybe_bundles(Ok(Some(response)), &mut twice).unwrap();
    }
    assert_eq!(once, twice);
    assert_eq!((once.num_bundles, once.num_bundle_packets), (2, 3));
}

#[test]
fn counters_stop_at_their_limit() {
    let mut stats = PbsStageStats {
        num_bundles: u64::MAX - 1,
        num_bundle_packets: u64::MAX,
        ..PbsStageStats::default()
    };
    let response = BundlesResponse { bundles: vec![bundle("a", &[1]), bundle("b", &[2])] };
    handle_maybe_bundles(Ok(Some(response)), &mut stats).unwrap();
    assert_eq!(stats.num_bundles, u64::MAX);
    assert_eq!(stats.num_bundle_packets, u64::MAX);
}

#[test]
fn a_copy_of_a_bundle_holds_the_same() {
    let bundle = PacketBundle::new(vec![packet(5), packet(6)], "id".to_string());
    assert_eq!(bundle.len(), 2);
    let copy = bundle.clone();
    assert_eq!(contents(copy), ("id".to_string(), vec![5, 6]));
    assert_eq!(contents(bundle), ("id".to_string(), vec![5, 6]));
}
