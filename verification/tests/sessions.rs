use pbs_stage::bundle::{Bundle, BundlesResponse, PacketBundle};
use pbs_stage::config::{endpoint_error, ConfigFault, EndpointFailure, PbsConfig};
use pbs_stage::consumer::{Consumer, ConsumerAction, ConsumerEvent, METRICS_TICK_S};
use pbs_stage::delayer::{Delayer, DelayerAction, DelayerEvent};
use pbs_stage::error::PbsError;
use pbs_stage::session::{CallOutcome, Session, SessionEvent, CONNECTION_TIMEOUT_S};
use pbs_stage::settings::{SimulationSettings, SimulationSettingsResponse};
use pbs_stage::slot::SlotBoundaryStatus;
use pbs_stage::stage::{PbsEngineStage, SessionEnd, StageAction, CONNECTION_BACKOFF_S};
use pbs_stage::stats::{DataPoint, PbsStageStats};
use solana_perf::packet::PacketBatch;
use solana_sdk::packet::Packet;
use solana_sdk::pubkey::Pubkey;
use solana_sdk::signature::Keypair;
use solana_sdk::system_transaction;
use tonic::metadata::MetadataMap;
use tonic::{Code, Status};

/// Compares by what is printed, since a gRPC status has no equality of its own.
fn same<T: std::fmt::Debug>(left: T, right: T) {
    assert_eq!(format!("{left:?}"), format!("{right:?}"));
}

/// A status with all its parts.
fn detailed_status() -> Status {
    let mut metadata = MetadataMap::new();
    metadata.insert("retry-after", "7".parse().unwrap());
    Status::with_details_and_metadata(Code::Unavailable, "gone", vec![1, 2, 3].into(), metadata)
}

fn config(pbs_url: &str, uuid: &str) -> PbsConfig {
    PbsConfig { pbs_url: pbs_url.to_string(), uuid: uuid.to_string() }
}

fn consumer(status: SlotBoundaryStatus) -> Consumer {
    let settings = SimulationSettings::try_from(no_settings()).unwrap();
    start(settings, status)
}

fn start(settings: SimulationSettings, status: SlotBoundaryStatus) -> Consumer {
    let session = Session::Streaming(settings);
    Consumer::start_consuming(config("http://engine:1", "id"), &session, status)
}

/// Hands an event to a session that goes on.
fn step(consumer: &mut Consumer, event: ConsumerEvent) -> ConsumerAction {
    let action = consumer.consume(ConsumerEvent::Ready { exit: false });
    assert!(matches!(action, ConsumerAction::Wait));
    consumer.consume(event)
}

/// The ids of the bundles that an action hands on, which are then taken.
fn handed_on(consumer: &mut Consumer, action: ConsumerAction) -> Vec<String> {
    match action {
        ConsumerAction::SendBundles(bundles) => {
            let action = consumer.consume(ConsumerEvent::BundlesSent { sent: true });
            assert!(matches!(action, ConsumerAction::Wait));
            ids(bundles)
        }
        ConsumerAction::Wait => Vec::new(),
        other => panic!("nothing to do with bundles: {other:?}"),
    }
}

/// The ids of the bundles that a message makes the session hand on.
fn receive(consumer: &mut Consumer, ids: &[&str]) -> Vec<String> {
    let action = step(consumer, ConsumerEvent::Message(message(ids)));
    handed_on(consumer, action)
}

/// The ids of the bundles that news of block production makes the session hand on.
fn boundary(consumer: &mut Consumer, status: SlotBoundaryStatus) -> Vec<String> {
    let action = step(consumer, ConsumerEvent::SlotBoundaryChanged(Some(status)));
    handed_on(consumer, action)
}

/// What a session reports, after which the configuration is found unchanged.
fn tick(consumer: &mut Consumer) -> Vec<DataPoint> {
    match step(consumer, ConsumerEvent::MetricsTick) {
        ConsumerAction::Report(points) => {
            let same = config("http://engine:1", "id");
            let action = consumer.consume(ConsumerEvent::ConfigRead(&same));
            assert!(matches!(action, ConsumerAction::Wait));
            points
        }
        other => panic!("no report: {other:?}"),
    }
}

fn end(action: ConsumerAction) -> Result<(), PbsError> {
    match action {
        ConsumerAction::End(result) => result,
        other => panic!("the session goes on: {other:?}"),
    }
}

fn transfer_packet() -> Packet {
    let from = Keypair::new();
    let to = Pubkey::from([3; 32]);
    let blockhash = solana_sdk::hash::Hash::default();
    let transaction = system_transaction::transfer(&from, &to, 1, blockhash);
    Packet::from_data(None, transaction).unwrap()
}

fn message(ids: &[&str]) -> Result<Option<BundlesResponse>, Status> {
    let bundles = ids
        .iter()
        .map(|id| Bundle {
            uuid: id.to_string(),
            packets: vec![Packet::from_data(None, [1u8; 4]).unwrap()],
        })
        .collect();
    Ok(Some(BundlesResponse { bundles }))
}

fn ids(bundles: Vec<PacketBundle>) -> Vec<String> {
    bundles.into_iter().map(|bundle| bundle.into_parts().1).collect()
}

fn values(points: Vec<DataPoint>) -> Vec<(&'static str, &'static str, i64)> {
    points.into_iter().map(|point| (point.name, point.field, point.value)).collect()
}

fn no_settings() -> SimulationSettingsResponse {
    SimulationSettingsResponse {
        simulate_all: None,
        account_include: vec![],
        account_exclude: vec![],
        account_required: vec![],
    }
}

fn value_of(points: Vec<DataPoint>, field: &str) -> i64 {
    points.into_iter().find(|point| point.field == field).unwrap().value
}

#[test]
fn periods_are_in_seconds() {
    assert_eq!(CONNECTION_TIMEOUT_S, 10);
    assert_eq!(CONNECTION_BACKOFF_S, 5);
    assert_eq!(METRICS_TICK_S, 1);
}

#[test]
fn a_report_lists_the_counters() {
    let stats = PbsStageStats {
        num_bundles: 1,
        num_bundle_packets: 2,
        num_missing_deadlines: 3,
        num_empty_packet_batches: 4,
        num_sanitized_transactions: 5,
        num_empty_tx_batches: 6,
        num_simulated_transactions: 7,
    };
    assert_eq!(
        values(stats.report()),
        vec![
            ("pbs_stage-stats", "num_bundles", 1),
            ("pbs_stage-stats", "num_bundle_packets", 2),
            ("pbs_stage-stats", "num_missing_deadlines", 3),
            ("pbs_stage-stats", "num_empty_packet_batches", 4),
            ("pbs_stage-stats", "num_sanitized_transactions", 1),
            ("pbs_stage-stats", "num_empty_tx_batches", 6),
            ("pbs_stage-stats", "num_simulated_transactions", 7),
        ]
    );
}

#[test]
fn counters_are_reported_as_signed_numbers() {
    let stats = PbsStageStats { num_bundle_packets: u64::MAX, ..PbsStageStats::default() };
    assert_eq!(value_of(stats.report(), "num_bundle_packets"), -1);
}

#[test]
fn a_config_needs_an_address_and_an_id() {
    assert!(PbsEngineStage::is_valid_pbs_config(&config("http://engine", "id")));
    assert!(!PbsEngineStage::is_valid_pbs_config(&config("", "id")));
    assert!(!PbsEngineStage::is_valid_pbs_config(&config("http://engine", "")));
    assert!(!PbsEngineStage::is_valid_pbs_config(&PbsConfig::default()));
}

#[test]
fn an_id_must_be_a_metadata_value() {
    for id in ["a\tb", " ", "~", "caf\u{e9}", "\u{20ac}"] {
        assert!(PbsEngineStage::is_valid_pbs_config(&config("http://engine", id)));
    }
    for id in ["a\nb", "\r", "\0", "\x1f", "\x7f"] {
        assert!(!PbsEngineStage::is_valid_pbs_config(&config("http://engine", id)));
    }
}

#[test]
fn configs_are_compared_by_address_and_id() {
    let one = config("http://engine", "id");
    assert!(one.same_as(&one.clone()));
    assert!(!one.same_as(&config("http://engine", "other")));
    assert!(!one.same_as(&config("http://other", "id")));
}

#[test]
fn an_address_becomes_an_endpoint() {
    let endpoint = config("http://engine:1003", "id").endpoint().unwrap();
    assert_eq!(endpoint.uri().host(), Some("engine"));
    assert_eq!(endpoint.uri().port_u16(), Some(1003));
    let endpoint = config("https://engine.example", "id").endpoint().unwrap();
    assert_eq!(endpoint.uri().scheme_str(), Some("https"));
}

#[test]
fn an_address_that_is_no_uri_is_an_error() {
    let error = config("not a uri", "id").endpoint().err();
    same(
        error,
        Some(PbsError::PbsConnectionError(
            "invalid block engine url value: not a uri".to_string()
        ))
    );
    let error = Session::connect_and_stream(&config("http://", "id")).err();
    same(
        error,
        Some(PbsError::PbsConnectionError("invalid block engine url value: http://".to_string()))
    );
}

#[test]
fn tls_needs_a_host_name() {
    let text = "failed to set tls_config for block engine service".to_string();
    same(
        config("https://[::1]:443", "id").endpoint().err(),
        Some(PbsError::PbsConnectionError(text))
    );
    assert!(config("http://[::1]:80", "id").endpoint().is_ok());
}

#[test]
fn endpoint_errors_have_their_words() {
    let url = "x".to_string();
    same(
        endpoint_error(EndpointFailure::InvalidUrl, &url),
        PbsError::PbsConnectionError("invalid block engine url value: x".to_string())
    );
    same(
        endpoint_error(EndpointFailure::Tls, &url),
        PbsError::PbsConnectionError(
            "failed to set tls_config for block engine service".to_string()
        )
    );
}

#[test]
fn settings_are_read_key_by_key() {
    let response = SimulationSettingsResponse {
        simulate_all: Some(true),
        account_include: vec![vec![1; 32], vec![2; 32]],
        account_exclude: vec![],
        account_required: vec![vec![3; 32]],
    };
    let settings = SimulationSettings::try_from(response).unwrap();
    assert!(settings.simulate_all);
    assert_eq!(settings.account_include, vec![[1; 32], [2; 32]]);
    assert!(settings.account_exclude.is_empty());
    assert_eq!(settings.account_required, vec![[3; 32]]);
}

#[test]
fn settings_default_to_not_simulating_all() {
    assert!(!SimulationSettings::try_from(no_settings()).unwrap().simulate_all);
    let response = SimulationSettingsResponse { simulate_all: Some(false), ..no_settings() };
    assert!(!SimulationSettings::try_from(response).unwrap().simulate_all);
}

#[test]
fn an_account_of_another_length_makes_settings_unusable() {
    for bytes in [vec![], vec![0; 31], vec![0; 33]] {
        let good: Vec<u8> = vec![7; 32];
        for response in [
            SimulationSettingsResponse {
                account_include: vec![good.clone(), bytes.clone()],
                ..no_settings()
            },
            SimulationSettingsResponse { account_exclude: vec![bytes.clone()], ..no_settings() },
            SimulationSettingsResponse {
                account_required: vec![bytes.clone(), good.clone()],
                ..no_settings()
            },
        ] {
            let error = SimulationSettings::try_from(response).err();
            same(error, Some(PbsError::SimulationSettingsError));
        }
    }
}

#[test]
fn a_session_streams_after_three_answers() {
    let (session, _) = Session::connect_and_stream(&config("http://engine:1", "id")).unwrap();
    assert!(matches!(session, Session::Connecting));
    let session = session.advance(SessionEvent::Connected(CallOutcome::Done(()))).unwrap();
    assert!(matches!(session, Session::FetchingSettings));
    let response = SimulationSettingsResponse { simulate_all: Some(true), ..no_settings() };
    let session =
        session.advance(SessionEvent::SettingsReceived(CallOutcome::Done(response))).unwrap();
    assert!(matches!(session, Session::Subscribing(_)));
    match session.advance(SessionEvent::Subscribed(CallOutcome::Done(()))).unwrap() {
        Session::Streaming(settings) => assert!(settings.simulate_all),
        other => panic!("not streaming: {other:?}"),
    }
}

#[test]
fn a_call_without_an_answer_ends_the_session() {
    let error = Session::Connecting.advance(SessionEvent::Connected(CallOutcome::TimedOut)).err();
    same(error, Some(PbsError::PbsConnectionTimeout));
    let error = Session::FetchingSettings
        .advance(SessionEvent::SettingsReceived(CallOutcome::TimedOut))
        .err();
    same(error, Some(PbsError::MethodTimeout("pbs_simulation_settings".to_string())));
    let settings = SimulationSettings::try_from(no_settings()).unwrap();
    let error = Session::Subscribing(settings)
        .advance(SessionEvent::Subscribed(CallOutcome::TimedOut))
        .err();
    same(error, Some(PbsError::MethodTimeout("pbs_subscribe".to_string())));
}

#[test]
fn a_call_that_fails_ends_the_session() {
    let text = "refused".to_string();
    let error = Session::Connecting
        .advance(SessionEvent::Connected(CallOutcome::Failed(text.clone())))
        .err();
    same(error, Some(PbsError::PbsConnectionError(text.clone())));
    let error = Session::FetchingSettings
        .advance(SessionEvent::SettingsReceived(CallOutcome::Failed(text.clone())))
        .err();
    same(error, Some(PbsError::MethodError(text.clone())));
    let settings = SimulationSettings::try_from(no_settings()).unwrap();
    let error = Session::Subscribing(settings)
        .advance(SessionEvent::Subscribed(CallOutcome::Failed(text.clone())))
        .err();
    same(error, Some(PbsError::MethodError(text)));
}

#[test]
fn unusable_settings_end_the_session() {
    let response =
        SimulationSettingsResponse { account_exclude: vec![vec![1]], ..no_settings() };
    let error = Session::FetchingSettings
        .advance(SessionEvent::SettingsReceived(CallOutcome::Done(response)))
        .err();
    same(error, Some(PbsError::SimulationSettingsError));
}

#[test]
fn bundles_between_slots_are_handed_on_twice() {
    let mut consumer = consumer(SlotBoundaryStatus::StandBy);
    assert_eq!(receive(&mut consumer, &["a", "b"]), ["a", "b"]);
    tick(&mut consumer);
    assert_eq!(receive(&mut consumer, &["c"]), ["c"]);
    assert_eq!(boundary(&mut consumer, SlotBoundaryStatus::InProgress), ["a", "b", "c"]);
    assert!(boundary(&mut consumer, SlotBoundaryStatus::StandBy).is_empty());
    assert!(boundary(&mut consumer, SlotBoundaryStatus::InProgress).is_empty());
}

#[test]
fn a_slot_that_begins_hands_on_even_nothing() {
    let mut consumer = consumer(SlotBoundaryStatus::StandBy);
    let begins = ConsumerEvent::SlotBoundaryChanged(Some(SlotBoundaryStatus::InProgress));
    match step(&mut consumer, begins) {
        ConsumerAction::SendBundles(bundles) => assert!(bundles.is_empty()),
        other => panic!("nothing handed on: {other:?}"),
    }
}

#[test]
fn bundles_within_a_slot_are_handed_on_once() {
    let mut consumer = consumer(SlotBoundaryStatus::InProgress);
    assert_eq!(receive(&mut consumer, &["a"]), ["a"]);
    boundary(&mut consumer, SlotBoundaryStatus::StandBy);
    assert_eq!(receive(&mut consumer, &["b"]), ["b"]);
    assert_eq!(boundary(&mut consumer, SlotBoundaryStatus::InProgress), ["b"]);
}

#[test]
fn no_bundle_is_lost() {
    let mut consumer = consumer(SlotBoundaryStatus::StandBy);
    let mut handed_on = receive(&mut consumer, &["a"]);
    for (status, id) in [
        (SlotBoundaryStatus::InProgress, "b"),
        (SlotBoundaryStatus::InProgress, "c"),
        (SlotBoundaryStatus::StandBy, "d"),
        (SlotBoundaryStatus::StandBy, "e"),
        (SlotBoundaryStatus::InProgress, "f"),
        (SlotBoundaryStatus::StandBy, "g"),
    ] {
        handed_on.extend(boundary(&mut consumer, status));
        handed_on.extend(receive(&mut consumer, &[id]));
    }
    assert_eq!(handed_on, ["a", "a", "b", "c", "d", "e", "d", "e", "f", "g"]);
    assert_eq!(boundary(&mut consumer, SlotBoundaryStatus::InProgress), ["g"]);
}

#[test]
fn nothing_is_kept_within_a_slot() {
    let mut consumer = consumer(SlotBoundaryStatus::InProgress);
    receive(&mut consumer, &["a", "b"]);
    tick(&mut consumer);
    assert!(boundary(&mut consumer, SlotBoundaryStatus::InProgress).is_empty());
}

#[test]
fn reports_add_up() {
    let mut consumer = consumer(SlotBoundaryStatus::InProgress);
    let mut reported = Vec::new();
    for ids in [vec!["a", "b"], vec![], vec!["c"]] {
        receive(&mut consumer, &ids);
        receive(&mut consumer, &["d"]);
        reported.push(value_of(tick(&mut consumer), "num_bundles"));
    }
    assert_eq!(reported, vec![3, 1, 2]);
    assert_eq!(value_of(tick(&mut consumer), "num_bundles"), 0);
}

#[test]
fn only_exit_ends_a_session_well() {
    let mut stopped = consumer(SlotBoundaryStatus::StandBy);
    same(end(stopped.consume(ConsumerEvent::Ready { exit: true })), Ok(()));

    let status = detailed_status();
    for (event, error) in [
        (ConsumerEvent::Message(Ok(None)), PbsError::GrpcStreamDisconnected),
        (ConsumerEvent::Message(Err(status.clone())), PbsError::GrpcError(status)),
        (ConsumerEvent::SlotBoundaryChanged(None), PbsError::SlotBoundaryCheckerError),
    ] {
        let mut consumer = consumer(SlotBoundaryStatus::StandBy);
        same(end(step(&mut consumer, event)), Err(error));
    }
}

#[test]
fn bundles_that_nobody_takes_end_the_session() {
    let mut consumer = consumer(SlotBoundaryStatus::StandBy);
    let action = step(&mut consumer, ConsumerEvent::Message(message(&["a"])));
    assert!(matches!(action, ConsumerAction::SendBundles(_)));
    let result = end(consumer.consume(ConsumerEvent::BundlesSent { sent: false }));
    same(result, Err(PbsError::PacketForwardError));
}

#[test]
fn batches_are_counted_by_what_became_of_them() {
    let mut consumer = consumer(SlotBoundaryStatus::InProgress);
    let none = Vec::new();
    let garbage = vec![PacketBatch::new(vec![Packet::from_data(None, [255u8; 7]).unwrap()])];
    let good = vec![PacketBatch::new(vec![transfer_packet(), transfer_packet()])];
    for (packet_batches, deadline) in [(&none, 1), (&none, 2)] {
        let event = ConsumerEvent::PacketsReceived { packet_batches, deadline, now: 2 };
        assert!(matches!(step(&mut consumer, event), ConsumerAction::Wait));
    }

    let event = ConsumerEvent::PacketsReceived { packet_batches: &garbage, deadline: 3, now: 2 };
    assert!(matches!(step(&mut consumer, event), ConsumerAction::Resolve));
    assert!(consumer.pending().unwrap().is_empty());
    let action = consumer.consume(ConsumerEvent::Answered(Vec::new()));
    assert!(matches!(action, ConsumerAction::Wait));
    assert!(consumer.pending().is_none());

    let event = ConsumerEvent::PacketsReceived { packet_batches: &good, deadline: 3, now: 2 };
    assert!(matches!(step(&mut consumer, event), ConsumerAction::Resolve));
    assert_eq!(consumer.pending().unwrap().len(), 2);
    match consumer.consume(ConsumerEvent::Answered(vec![None, None])) {
        ConsumerAction::SendRequest(transactions) => assert_eq!(transactions.len(), 2),
        other => panic!("nothing sent: {other:?}"),
    }
    let action = consumer.consume(ConsumerEvent::RequestSent { sent: true });
    assert!(matches!(action, ConsumerAction::Wait));

    let reported = values(tick(&mut consumer));
    assert_eq!(
        reported.into_iter().map(|(_, _, value)| value).collect::<Vec<_>>(),
        vec![0, 0, 1, 1, 0, 1, 0]
    );
}

#[test]
fn a_request_that_nobody_takes_ends_the_session() {
    let mut consumer = consumer(SlotBoundaryStatus::InProgress);
    let batches = vec![PacketBatch::new(vec![transfer_packet()])];
    let event = ConsumerEvent::PacketsReceived { packet_batches: &batches, deadline: 1, now: 1 };
    assert!(matches!(step(&mut consumer, event), ConsumerAction::Resolve));
    let action = consumer.consume(ConsumerEvent::Answered(vec![None]));
    assert!(matches!(action, ConsumerAction::SendRequest(_)));
    let result = end(consumer.consume(ConsumerEvent::RequestSent { sent: false }));
    same(result, Err(PbsError::GrpcStreamDisconnected));
}

#[test]
fn settings_bear_on_nothing() {
    let every = SimulationSettingsResponse {
        simulate_all: Some(true),
        account_required: vec![vec![1; 32]],
        ..no_settings()
    };
    let batches = vec![PacketBatch::new(vec![transfer_packet()])];
    let mut outcomes = Vec::new();
    for response in [every, no_settings()] {
        let settings = SimulationSettings::try_from(response).unwrap();
        let mut consumer = start(settings, SlotBoundaryStatus::StandBy);
        let handed_on = receive(&mut consumer, &["a"]);
        let event =
            ConsumerEvent::PacketsReceived { packet_batches: &batches, deadline: 1, now: 1 };
        step(&mut consumer, event);
        let sent = match consumer.consume(ConsumerEvent::Answered(vec![None])) {
            ConsumerAction::SendRequest(transactions) => {
                transactions.into_iter().map(|one| one.versioned_transaction).collect::<Vec<_>>()
            }
            other => panic!("nothing sent: {other:?}"),
        };
        consumer.consume(ConsumerEvent::RequestSent { sent: true });
        let reported = values(tick(&mut consumer));
        assert_eq!(reported[6], ("pbs_stage-stats", "num_simulated_transactions", 0));
        outcomes.push((handed_on, sent, reported));
    }
    assert_eq!(outcomes[0], outcomes[1]);
}

#[test]
fn another_config_ends_the_session() {
    for other in [config("http://engine:2", "id"), config("http://engine:1", "id2")] {
        let mut consumer = consumer(SlotBoundaryStatus::StandBy);
        let action = step(&mut consumer, ConsumerEvent::MetricsTick);
        assert!(matches!(action, ConsumerAction::Report(_)));
        same(
            end(consumer.consume(ConsumerEvent::ConfigRead(&other))),
            Err(PbsError::AuthenticationConnectionError("pbs config changed".to_string()))
        );
    }
}

#[test]
fn a_batch_is_shared_for_as_long_as_it_is_held_back() {
    let mut delayer = Delayer::new(SlotBoundaryStatus::InProgress);
    let event = DelayerEvent::Received { batch: 'x', now: 1_000 };
    let deadline = match delayer.delay_packet_batches(event) {
        DelayerAction::Delay(held) => held.deadline,
        other => panic!("not held back: {other:?}"),
    };
    let batches = vec![PacketBatch::new(vec![transfer_packet()])];
    let packets = |now: u64| ConsumerEvent::PacketsReceived {
        packet_batches: &batches,
        deadline,
        now,
    };
    let mut in_time = consumer(SlotBoundaryStatus::InProgress);
    assert!(matches!(step(&mut in_time, packets(300_001_000)), ConsumerAction::Resolve));
    let mut late = consumer(SlotBoundaryStatus::InProgress);
    assert!(matches!(step(&mut late, packets(300_001_001)), ConsumerAction::Wait));
}

/// Has a session opened its stream.
fn open_stream(stage: &mut PbsEngineStage) {
    let settings = SimulationSettings::try_from(no_settings()).unwrap();
    let opened = SessionEvent::Subscribed(CallOutcome::Done(()));
    let session = stage.advance(Session::Subscribing(settings), opened).unwrap();
    assert!(matches!(session, Session::Streaming(_)));
}

#[test]
fn setting_up_leaves_the_stage_as_it_was() {
    let mut stage = PbsEngineStage::start();
    let session = stage
        .advance(Session::Connecting, SessionEvent::Connected(CallOutcome::Done(())))
        .unwrap();
    assert!(!stage.is_pbs_active);
    let settings = SessionEvent::SettingsReceived(CallOutcome::Done(no_settings()));
    let session = stage.advance(session, settings).unwrap();
    assert!(!stage.is_pbs_active);
    let error = stage.advance(session, SessionEvent::Subscribed(CallOutcome::TimedOut)).err();
    same(error, Some(PbsError::MethodTimeout("pbs_subscribe".to_string())));
    assert!(!stage.is_pbs_active);
    assert_eq!(stage.error_count, 0);
}

#[test]
fn the_stage_waits_for_a_valid_config() {
    let mut stage = PbsEngineStage::start();
    assert!(!stage.is_pbs_active);
    assert_eq!(
        stage.attempt(false, &PbsConfig::default()),
        StageAction::Backoff { fault: ConfigFault::MissingUrl, seconds: 5 }
    );
    assert_eq!(
        stage.attempt(false, &config("http://engine", "")),
        StageAction::Backoff { fault: ConfigFault::MissingUuid, seconds: 5 }
    );
    assert_eq!(
        stage.attempt(false, &config("http://engine", "a\nb")),
        StageAction::Backoff { fault: ConfigFault::InvalidUuid, seconds: 5 }
    );
    assert_eq!(stage.attempt(false, &config("http://engine", "id")), StageAction::Connect);
    assert_eq!(stage.attempt(true, &config("http://engine", "id")), StageAction::Stop);
}

#[test]
fn errors_are_counted() {
    let mut stage = PbsEngineStage::start();
    for count in 1..4 {
        open_stream(&mut stage);
        assert!(stage.is_pbs_active);
        match stage.session_ended(Err(PbsError::PacketForwardError)) {
            SessionEnd::Failed { count: counted, error, seconds } => {
                assert_eq!(counted, count);
                same(error, PbsError::PacketForwardError);
                assert_eq!(seconds, 5);
            }
            SessionEnd::Finished => panic!("the session failed"),
        }
        assert!(!stage.is_pbs_active);
    }
    assert_eq!(stage.error_count, 3);
}

#[test]
fn an_orderly_end_is_no_error() {
    let mut stage = PbsEngineStage::start();
    open_stream(&mut stage);
    assert!(matches!(stage.session_ended(Ok(())), SessionEnd::Finished));
    assert_eq!(stage.error_count, 0);
    assert!(stage.is_pbs_active);
    assert_eq!(stage.attempt(true, &PbsConfig::default()), StageAction::Stop);
    assert!(!stage.is_pbs_active);
}

#[test]
fn no_session_counts_as_running_until_another_begins() {
    let mut stage = PbsEngineStage::start();
    open_stream(&mut stage);
    stage.session_ended(Err(PbsError::GrpcStreamDisconnected));
    stage.attempt(false, &PbsConfig::default());
    stage.session_ended(Err(PbsError::PbsConnectionTimeout));
    assert!(!stage.is_pbs_active);
    open_stream(&mut stage);
    assert!(stage.is_pbs_active);
}
