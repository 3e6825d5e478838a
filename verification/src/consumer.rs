//! A running session with the block engine.
//!
//! Bundles come in at any time, but a bundle can only land in a slot of this validator. So bundles
//! that come in while no slot is running are handed on at once and kept as well, and all that were
//! kept are handed on again when a slot begins.
use vstd::prelude::*;

use crate::bundle;
use crate::bundle::{handle_maybe_bundles, BundlesResponse, PacketBundle};
use crate::config;
use crate::config::PbsConfig;
use crate::delayer;
use crate::error;
use crate::error::PbsError;
use crate::packets;
use crate::packets::{
    handle_answered_batch, handle_packet_batch, handle_request_sent, PacketBatchStep,
    RequestReceipt,
};
use crate::session::Session;
use crate::settings;
use crate::slot::{RunningLeaderStatus, SlotBoundaryStatus};
use crate::solana;
use crate::solana::LoadedAddresses;
use crate::stats;
use crate::stats::{DataPoint, PbsStageStats};
use crate::transaction;
use crate::transaction::{PendingTransaction, ProtoSanitizedTransaction};
use solana_perf::packet::PacketBatch;
use solana_sdk::transaction::VersionedTransaction;
use tonic::Status;

verus! {

/// How often the counters are reported and the configuration is read again.
pub const METRICS_TICK_S: u64 = 1;

/// What a session has seen.
#[derive(Debug)]
pub enum ConsumerEvent<'a> {
    /// It is about to wait for the next event; `exit` says whether the validator is going down.
    Ready { exit: bool },
    /// Block production began or ended; `None` where nothing is known of it any more.
    SlotBoundaryChanged(Option<SlotBoundaryStatus>),
    /// The stream was read: a message, its end, or an error.
    Message(Result<Option<BundlesResponse>, Status>),
    /// Bundles were handed on, and taken or not.
    BundlesSent { sent: bool },
    /// A batch of packets came in. Times are nanoseconds since one common moment.
    PacketsReceived { packet_batches: &'a Vec<PacketBatch>, deadline: u64, now: u64 },
    /// A bank answered the lookups of the transactions of the batch, one after the other.
    Answered(Vec<Option<LoadedAddresses>>),
    /// Transactions were sent to the block engine, and taken or not.
    RequestSent { sent: bool },
    /// It is time to report.
    MetricsTick,
    /// The configuration was read.
    ConfigRead(&'a PbsConfig),
}

/// What a session does next.
#[derive(Debug)]
pub enum ConsumerAction {
    /// Look whether the validator is going down, and then wait for the next event.
    Wait,
    /// Hand bundles on.
    SendBundles(Vec<PacketBundle>),
    /// Have a bank answer the lookups of the transactions in [`Consumer::pending`].
    Resolve,
    /// Send transactions to the block engine.
    SendRequest(Vec<ProtoSanitizedTransaction>),
    /// Publish data points, and read the configuration.
    Report(Vec<DataPoint>),
    /// End the session.
    End(Result<(), PbsError>),
}

/// What a session is waiting for.
#[derive(Debug)]
enum Awaiting {
    Ready,
    Event,
    BundlesSent,
    Answers(Vec<PendingTransaction>),
    RequestSent(RequestReceipt),
    Config,
    Nothing,
}

/// The state of a running session.
#[derive(Debug)]
pub struct Consumer {
    local_config: PbsConfig,
    pbs_stats: PbsStageStats,
    retry_bundles: Vec<PacketBundle>,
    slot_boundary_status: SlotBoundaryStatus,
    awaiting: Awaiting,
}

/// What a [`ConsumerEvent`] holds.
#[verifier::ext_equal]
pub enum ConsumerEventView {
    Ready { exit: bool },
    SlotBoundaryChanged(Option<SlotBoundaryStatus>),
    Message(Result<Option<Seq<bundle::BundleView>>, Status>),
    BundlesSent { sent: bool },
    PacketsReceived { packet_batches: Seq<PacketBatch>, deadline: u64, now: u64 },
    Answered(Seq<Option<solana::LoadedAddressesView>>),
    RequestSent { sent: bool },
    MetricsTick,
    ConfigRead(config::PbsConfigView),
}

impl<'a> View for ConsumerEvent<'a> {
    type V = ConsumerEventView;

    open spec fn view(&self) -> ConsumerEventView {
        match *self {
            ConsumerEvent::Ready { exit } => ConsumerEventView::Ready { exit },
            ConsumerEvent::SlotBoundaryChanged(
                changed,
            ) => ConsumerEventView::SlotBoundaryChanged(changed),
            ConsumerEvent::Message(Ok(Some(response))) => ConsumerEventView::Message(
                Ok(Some(bundle::received_view(response.bundles@))),
            ),
            ConsumerEvent::Message(Ok(None)) => ConsumerEventView::Message(Ok(None)),
            ConsumerEvent::Message(Err(status)) => ConsumerEventView::Message(Err(status)),
            ConsumerEvent::BundlesSent { sent } => ConsumerEventView::BundlesSent { sent },
            ConsumerEvent::PacketsReceived {
                packet_batches,
                deadline,
                now,
            } => ConsumerEventView::PacketsReceived { packet_batches: packet_batches@, deadline, now },
            ConsumerEvent::Answered(answers) => ConsumerEventView::Answered(
                transaction::answers_view(answers@),
            ),
            ConsumerEvent::RequestSent { sent } => ConsumerEventView::RequestSent { sent },
            ConsumerEvent::MetricsTick => ConsumerEventView::MetricsTick,
            ConsumerEvent::ConfigRead(config) => ConsumerEventView::ConfigRead(config@),
        }
    }
}

/// What a [`ConsumerAction`] holds.
#[verifier::ext_equal]
pub enum ConsumerActionView {
    Wait,
    SendBundles(Seq<bundle::BundleView>),
    Resolve,
    SendRequest(Seq<transaction::ProtoSanitizedTransactionView>),
    Report(Seq<stats::DataPointView>),
    End(Result<(), error::PbsErrorView>),
}

impl View for ConsumerAction {
    type V = ConsumerActionView;

    open spec fn view(&self) -> ConsumerActionView {
        match *self {
            ConsumerAction::Wait => ConsumerActionView::Wait,
            ConsumerAction::SendBundles(bundles) => ConsumerActionView::SendBundles(
                bundle::bundles_view(bundles@),
            ),
            ConsumerAction::Resolve => ConsumerActionView::Resolve,
            ConsumerAction::SendRequest(transactions) => ConsumerActionView::SendRequest(
                transaction::protos_view(transactions@),
            ),
            ConsumerAction::Report(points) => ConsumerActionView::Report(
                stats::points_view(points@),
            ),
            ConsumerAction::End(Ok(_)) => ConsumerActionView::End(Ok(())),
            ConsumerAction::End(Err(error)) => ConsumerActionView::End(Err(error@)),
        }
    }
}

/// What a session is waiting for.
#[verifier::ext_equal]
pub enum AwaitingView {
    /// Whether the validator is going down.
    Ready,
    /// News of block production, a read of the stream, a batch of packets, or the time to report.
    Event,
    /// The outcome of handing bundles on.
    BundlesSent,
    /// The answers to the lookups of these transactions.
    Answers(Seq<VersionedTransaction>),
    /// The outcome of sending this many transactions.
    RequestSent(nat),
    /// The configuration.
    Config,
    /// Nothing: the session has ended.
    Nothing,
}

/// What a [`Consumer`] holds.
#[verifier::ext_equal]
pub struct ConsumerView {
    /// The configuration that the session was begun with.
    pub local_config: config::PbsConfigView,
    /// The counters since the last report.
    pub pbs_stats: PbsStageStats,
    /// The bundles to hand on again when a slot begins.
    pub retry_bundles: Seq<bundle::BundleView>,
    /// Whether a slot is running.
    pub slot_boundary_status: SlotBoundaryStatus,
    /// What the session is waiting for.
    pub awaiting: AwaitingView,
}

impl View for Consumer {
    type V = ConsumerView;

    closed spec fn view(&self) -> ConsumerView {
        ConsumerView {
            local_config: self.local_config@,
            pbs_stats: self.pbs_stats,
            retry_bundles: bundle::bundles_view(self.retry_bundles@),
            slot_boundary_status: self.slot_boundary_status,
            awaiting: match self.awaiting {
                Awaiting::Ready => AwaitingView::Ready,
                Awaiting::Event => AwaitingView::Event,
                Awaiting::BundlesSent => AwaitingView::BundlesSent,
                Awaiting::Answers(pending) => AwaitingView::Answers(
                    transaction::pending_view(pending@),
                ),
                Awaiting::RequestSent(receipt) => AwaitingView::RequestSent(receipt@),
                Awaiting::Config => AwaitingView::Config,
                Awaiting::Nothing => AwaitingView::Nothing,
            },
        }
    }
}

impl ConsumerView {
    /// A session that begins with the given configuration and settings, while block production is
    /// as given.
    pub open spec fn started(
        local_config: config::PbsConfigView,
        simulation_settings: settings::SimulationSettingsView,
        slot_boundary_status: SlotBoundaryStatus,
    ) -> ConsumerView {
        ConsumerView {
            local_config,
            pbs_stats: stats::no_stats(),
            retry_bundles: Seq::empty(),
            slot_boundary_status,
            awaiting: AwaitingView::Ready,
        }
    }

    /// Whether an event is one that the session is waiting for.
    pub open spec fn awaits(self, event: ConsumerEventView) -> bool {
        match event {
            ConsumerEventView::Ready { .. } => self.awaiting is Ready,
            ConsumerEventView::SlotBoundaryChanged(_) => self.awaiting is Event,
            ConsumerEventView::Message(_) => self.awaiting is Event,
            ConsumerEventView::BundlesSent { .. } => self.awaiting is BundlesSent,
            ConsumerEventView::PacketsReceived { .. } => self.awaiting is Event,
            ConsumerEventView::Answered(answers) => self.awaiting matches AwaitingView::Answers(
                transactions,
            ) && answers.len() == transactions.len(),
            ConsumerEventView::RequestSent { .. } => self.awaiting is RequestSent,
            ConsumerEventView::MetricsTick => self.awaiting is Event,
            ConsumerEventView::ConfigRead(_) => self.awaiting is Config,
        }
    }

    /// The state with something else to wait for.
    pub open spec fn waiting_for(self, awaiting: AwaitingView) -> ConsumerView {
        ConsumerView { awaiting, ..self }
    }

    /// The state with other counters.
    pub open spec fn with_stats(self, pbs_stats: PbsStageStats) -> ConsumerView {
        ConsumerView { pbs_stats, ..self }
    }

    /// The state after block production began or ended: nothing is kept once a slot has begun.
    pub open spec fn after_boundary(self, status: SlotBoundaryStatus) -> ConsumerView {
        ConsumerView {
            slot_boundary_status: status,
            retry_bundles: if status == SlotBoundaryStatus::InProgress {
                Seq::empty()
            } else {
                self.retry_bundles
            },
            awaiting: if status == SlotBoundaryStatus::InProgress {
                AwaitingView::BundlesSent
            } else {
                AwaitingView::Ready
            },
            ..self
        }
    }

    /// The state after bundles came in: they are counted, and kept while no slot is running.
    pub open spec fn after_bundles(self, bundles: Seq<bundle::BundleView>) -> ConsumerView {
        ConsumerView {
            pbs_stats: bundle::with_bundles(self.pbs_stats, bundles),
            retry_bundles: if self.slot_boundary_status == SlotBoundaryStatus::StandBy {
                self.retry_bundles + bundles
            } else {
                self.retry_bundles
            },
            awaiting: AwaitingView::BundlesSent,
            ..self
        }
    }

    /// The state after a batch of packets came in.
    pub open spec fn after_packet_batch(
        self,
        packet_batches: Seq<PacketBatch>,
        deadline: u64,
        now: u64,
    ) -> ConsumerView {
        if packets::missed(deadline, now) {
            self.with_stats(packets::with_missing_deadline(self.pbs_stats)).waiting_for(
                AwaitingView::Ready,
            )
        } else if packet_batches.len() == 0 {
            self.with_stats(packets::with_empty_packet_batch(self.pbs_stats)).waiting_for(
                AwaitingView::Ready,
            )
        } else {
            self.waiting_for(AwaitingView::Answers(transaction::live_transactions(packet_batches)))
        }
    }

    /// The transactions that the batch gives whose lookups have been answered.
    pub open spec fn accepted(self, answers: Seq<Option<solana::LoadedAddressesView>>) -> Seq<
        transaction::ProtoSanitizedTransactionView,
    > {
        packets::accepted_batch(self.awaiting->Answers_0, answers)
    }

    /// The state after an event.
    pub open spec fn after(self, event: ConsumerEventView) -> ConsumerView {
        match event {
            ConsumerEventView::Ready { exit: false } => self.waiting_for(AwaitingView::Event),
            ConsumerEventView::SlotBoundaryChanged(Some(status)) => self.after_boundary(status),
            ConsumerEventView::Message(Ok(Some(bundles))) => self.after_bundles(bundles),
            ConsumerEventView::BundlesSent { sent: true } => self.waiting_for(AwaitingView::Ready),
            ConsumerEventView::PacketsReceived {
                packet_batches,
                deadline,
                now,
            } => self.after_packet_batch(packet_batches, deadline, now),
            ConsumerEventView::Answered(answers) => if self.accepted(answers).len() == 0 {
                self.with_stats(packets::with_empty_tx_batch(self.pbs_stats)).waiting_for(
                    AwaitingView::Ready,
                )
            } else {
                self.waiting_for(AwaitingView::RequestSent(self.accepted(answers).len()))
            },
            ConsumerEventView::RequestSent { sent: true } => self.with_stats(
                packets::with_sanitized_transactions(
                    self.pbs_stats,
                    self.awaiting->RequestSent_0,
                ),
            ).waiting_for(AwaitingView::Ready),
            ConsumerEventView::MetricsTick => self.with_stats(stats::no_stats()).waiting_for(
                AwaitingView::Config,
            ),
            ConsumerEventView::ConfigRead(config) if config == self.local_config => self.waiting_for(
                AwaitingView::Ready,
            ),
            _ => self.waiting_for(AwaitingView::Nothing),
        }
    }

    /// What the session does after an event.
    pub open spec fn action(self, event: ConsumerEventView) -> ConsumerActionView {
        match event {
            ConsumerEventView::Ready { exit: true } => ConsumerActionView::End(Ok(())),
            ConsumerEventView::Ready { exit: false } => ConsumerActionView::Wait,
            ConsumerEventView::SlotBoundaryChanged(None) => ConsumerActionView::End(
                Err(error::PbsErrorView::SlotBoundaryCheckerError),
            ),
            ConsumerEventView::SlotBoundaryChanged(
                Some(SlotBoundaryStatus::InProgress),
            ) => ConsumerActionView::SendBundles(self.retry_bundles),
            ConsumerEventView::SlotBoundaryChanged(
                Some(SlotBoundaryStatus::StandBy),
            ) => ConsumerActionView::Wait,
            ConsumerEventView::Message(Ok(Some(bundles))) => ConsumerActionView::SendBundles(
                bundles,
            ),
            ConsumerEventView::Message(Ok(None)) => ConsumerActionView::End(
                Err(error::PbsErrorView::GrpcStreamDisconnected),
            ),
            ConsumerEventView::Message(Err(status)) => ConsumerActionView::End(
                Err(error::PbsErrorView::GrpcError(status)),
            ),
            ConsumerEventView::BundlesSent { sent: true } => ConsumerActionView::Wait,
            ConsumerEventView::BundlesSent { sent: false } => ConsumerActionView::End(
                Err(error::PbsErrorView::PacketForwardError),
            ),
            ConsumerEventView::PacketsReceived { packet_batches, deadline, now } => if packets::missed(
                deadline,
                now,
            ) || packet_batches.len() == 0 {
                ConsumerActionView::Wait
            } else {
                ConsumerActionView::Resolve
            },
            ConsumerEventView::Answered(answers) => if self.accepted(answers).len() == 0 {
                ConsumerActionView::Wait
            } else {
                ConsumerActionView::SendRequest(self.accepted(answers))
            },
            ConsumerEventView::RequestSent { sent: true } => ConsumerActionView::Wait,
            ConsumerEventView::RequestSent { sent: false } => ConsumerActionView::End(
                Err(error::PbsErrorView::GrpcStreamDisconnected),
            ),
            ConsumerEventView::MetricsTick => ConsumerActionView::Report(self.pbs_stats.reported()),
            ConsumerEventView::ConfigRead(config) => if config == self.local_config {
                ConsumerActionView::Wait
            } else {
                ConsumerActionView::End(
                    Err(error::PbsErrorView::AuthenticationConnectionError("pbs config changed"@)),
                )
            },
        }
    }

    /// The state after a run of events.
    pub open spec fn after_all(self, events: Seq<ConsumerEventView>) -> ConsumerView
        decreases events.len(),
    {
        if events.len() == 0 {
            self
        } else {
            self.after_all(events.drop_last()).after(events.last())
        }
    }

    /// Whether the session is waiting for each event of a run when it happens.
    pub open spec fn awaits_all(self, events: Seq<ConsumerEventView>) -> bool
        decreases events.len(),
    {
        events.len() == 0 || {
            &&& self.awaits_all(events.drop_last())
            &&& self.after_all(events.drop_last()).awaits(events.last())
        }
    }

    /// What the session does in a run of events, event by event.
    pub open spec fn actions(self, events: Seq<ConsumerEventView>) -> Seq<ConsumerActionView>
        decreases events.len(),
    {
        if events.len() == 0 {
            Seq::empty()
        } else {
            self.actions(events.drop_last()).push(
                self.after_all(events.drop_last()).action(events.last()),
            )
        }
    }
}

/// Copies a list of bundles.
fn clone_bundles(bundles: &Vec<PacketBundle>) -> (copies: Vec<PacketBundle>)
    ensures
        bundle::bundles_view(copies@) == bundle::bundles_view(bundles@),
{
    let mut copies: Vec<PacketBundle> = Vec::new();
    let mut i: usize = 0;
    while i < bundles.len()
        invariant
            i <= bundles@.len(),
            bundle::bundles_view(copies@) == bundle::bundles_view(bundles@.take(i as int)),
        decreases bundles@.len() - i,
    {
        let ghost earlier = copies@;
        let copy = bundles[i].clone();
        copies.push(copy);
        proof {
            assert(bundle::bundles_view(copies@) == bundle::bundles_view(earlier).push(copy@));
            assert(bundle::bundles_view(bundles@.take(i as int)).push(bundles@[i as int]@)
                == bundle::bundles_view(bundles@.take(i + 1)));
        }
        i += 1;
    }
    assert(bundles@.take(i as int) == bundles@);
    copies
}

impl Consumer {
    /// A session whose stream has been opened, with the given configuration, while block production
    /// is as given.
    pub fn start_consuming(
        local_config: PbsConfig,
        session: &Session,
        slot_boundary_status: SlotBoundaryStatus,
    ) -> (consumer: Consumer)
        requires
            session is Streaming,
        ensures
            consumer@ == ConsumerView::started(
                local_config@,
                session@->Streaming_0,
                slot_boundary_status,
            ),
    {
        let consumer = Consumer {
            local_config,
            pbs_stats: PbsStageStats::default(),
            retry_bundles: Vec::new(),
            slot_boundary_status,
            awaiting: Awaiting::Ready,
        };
        assert(bundle::bundles_view(consumer.retry_bundles@) =~= Seq::empty());
        consumer
    }

    /// The transactions whose lookups are to be answered, if the session waits for answers.
    pub fn pending(&self) -> (pending: Option<&Vec<PendingTransaction>>)
        ensures
            match pending {
                Some(pending) => self@.awaiting == AwaitingView::Answers(
                    transaction::pending_view(pending@),
                ),
                None => !(self@.awaiting is Answers),
            },
    {
        match &self.awaiting {
            Awaiting::Answers(pending) => Some(pending),
            _ => None,
        }
    }

    /// Ends the session.
    fn end(&mut self, result: Result<(), PbsError>) -> (action: ConsumerAction)
        ensures
            final(self)@ == old(self)@.waiting_for(AwaitingView::Nothing),
            action == ConsumerAction::End(result),
    {
        self.awaiting = Awaiting::Nothing;
        ConsumerAction::End(result)
    }

    /// Goes on to the next event.
    fn wait(&mut self) -> (action: ConsumerAction)
        ensures
            final(self)@ == old(self)@.waiting_for(AwaitingView::Ready),
            action is Wait,
    {
        self.awaiting = Awaiting::Ready;
        ConsumerAction::Wait
    }

    /// Takes news of block production: when a slot begins, the bundles that were kept are to be
    /// handed on.
    fn slot_boundary_changed(&mut self, status: SlotBoundaryStatus) -> (action: ConsumerAction)
        ensures
            final(self)@ == old(self)@.after_boundary(status),
            action@ == old(self)@.action(ConsumerEventView::SlotBoundaryChanged(Some(status))),
    {
        self.slot_boundary_status = status;
        match status {
            SlotBoundaryStatus::InProgress => {
                let mut bundles: Vec<PacketBundle> = Vec::new();
                std::mem::swap(&mut bundles, &mut self.retry_bundles);
                assert(bundle::bundles_view(self.retry_bundles@) =~= Seq::empty());
                self.awaiting = Awaiting::BundlesSent;
                ConsumerAction::SendBundles(bundles)
            },
            SlotBoundaryStatus::StandBy => self.wait(),
        }
    }

    /// Takes the outcome of a read of the stream. Bundles are to be handed on in order, and are
    /// kept as well while no slot is running; an error or the end of the stream ends the session.
    fn message_received(
        &mut self,
        maybe_bundles: Result<Option<BundlesResponse>, Status>,
    ) -> (action: ConsumerAction)
        ensures
            final(self)@ == old(self)@.after(ConsumerEvent::Message(maybe_bundles)@),
            action@ == old(self)@.action(ConsumerEvent::Message(maybe_bundles)@),
    {
        let bundles = match handle_maybe_bundles(maybe_bundles, &mut self.pbs_stats) {
            Ok(bundles) => bundles,
            Err(error) => {
                return self.end(Err(error));
            },
        };
        match self.slot_boundary_status {
            SlotBoundaryStatus::StandBy => {
                let ghost kept = self.retry_bundles@;
                let mut copies = clone_bundles(&bundles);
                let ghost added = copies@;
                self.retry_bundles.append(&mut copies);
                assert(bundle::bundles_view(self.retry_bundles@) == bundle::bundles_view(kept)
                    + bundle::bundles_view(added));
            },
            SlotBoundaryStatus::InProgress => {},
        }
        self.awaiting = Awaiting::BundlesSent;
        ConsumerAction::SendBundles(bundles)
    }

    /// Takes a batch of packets with its deadline.
    fn packet_batch_received(
        &mut self,
        packet_batches: &Vec<PacketBatch>,
        deadline: u64,
        now: u64,
    ) -> (action: ConsumerAction)
        ensures
            final(self)@ == old(self)@.after_packet_batch(packet_batches@, deadline, now),
            action@ == old(self)@.action(
                ConsumerEventView::PacketsReceived { packet_batches: packet_batches@, deadline, now },
            ),
    {
        match handle_packet_batch(packet_batches, deadline, now, &mut self.pbs_stats) {
            PacketBatchStep::Skip => self.wait(),
            PacketBatchStep::Resolve(pending) => {
                self.awaiting = Awaiting::Answers(pending);
                ConsumerAction::Resolve
            },
        }
    }

    /// Takes the answers to the lookups of a batch: the transactions that are accepted are to be
    /// sent to the block engine.
    fn answered(&mut self, answers: Vec<Option<LoadedAddresses>>) -> (action: ConsumerAction)
        requires
            old(self)@.awaits(ConsumerEvent::Answered(answers)@),
        ensures
            final(self)@ == old(self)@.after(ConsumerEvent::Answered(answers)@),
            action@ == old(self)@.action(ConsumerEvent::Answered(answers)@),
    {
        let mut awaiting = Awaiting::Ready;
        std::mem::swap(&mut awaiting, &mut self.awaiting);
        let pending = match awaiting {
            Awaiting::Answers(pending) => pending,
            _ => vstd::pervasive::unreached(),
        };
        match handle_answered_batch(pending, answers, &mut self.pbs_stats) {
            Some(transactions) => {
                self.awaiting = Awaiting::RequestSent(RequestReceipt::of(&transactions));
                ConsumerAction::SendRequest(transactions)
            },
            None => self.wait(),
        }
    }

    /// Takes the outcome of sending transactions to the block engine.
    fn request_sent(&mut self, sent: bool) -> (action: ConsumerAction)
        requires
            old(self)@.awaiting is RequestSent,
        ensures
            final(self)@ == old(self)@.after(ConsumerEventView::RequestSent { sent }),
            action@ == old(self)@.action(ConsumerEventView::RequestSent { sent }),
    {
        let mut awaiting = Awaiting::Ready;
        std::mem::swap(&mut awaiting, &mut self.awaiting);
        let receipt = match awaiting {
            Awaiting::RequestSent(receipt) => receipt,
            _ => vstd::pervasive::unreached(),
        };
        match handle_request_sent(sent, &receipt, &mut self.pbs_stats) {
            Ok(_) => self.wait(),
            Err(error) => self.end(Err(error)),
        }
    }

    /// Takes an event that the session is waiting for, and says what to do next. A session ends
    /// well only where the validator is going down.
    pub fn consume(&mut self, event: ConsumerEvent<'_>) -> (action: ConsumerAction)
        requires
            old(self)@.awaits(event@),
        ensures
            final(self)@ == old(self)@.after(event@),
            action@ == old(self)@.action(event@),
    {
        match event {
            ConsumerEvent::Ready { exit } => {
                if exit {
                    self.end(Ok(()))
                } else {
                    self.awaiting = Awaiting::Event;
                    ConsumerAction::Wait
                }
            },
            ConsumerEvent::SlotBoundaryChanged(None) => self.end(
                Err(PbsError::SlotBoundaryCheckerError),
            ),
            ConsumerEvent::SlotBoundaryChanged(Some(status)) => self.slot_boundary_changed(status),
            ConsumerEvent::Message(maybe_bundles) => self.message_received(maybe_bundles),
            ConsumerEvent::BundlesSent { sent } => {
                if sent {
                    self.wait()
                } else {
                    self.end(Err(PbsError::PacketForwardError))
                }
            },
            ConsumerEvent::PacketsReceived { packet_batches, deadline, now } => {
                self.packet_batch_received(packet_batches, deadline, now)
            },
            ConsumerEvent::Answered(answers) => self.answered(answers),
            ConsumerEvent::RequestSent { sent } => self.request_sent(sent),
            ConsumerEvent::MetricsTick => {
                let points = self.pbs_stats.report();
                self.pbs_stats = PbsStageStats::default();
                self.awaiting = Awaiting::Config;
                ConsumerAction::Report(points)
            },
            ConsumerEvent::ConfigRead(global_config) => {
                if self.local_config.same_as(global_config) {
                    self.wait()
                } else {
                    self.end(
                        Err(
                            PbsError::AuthenticationConnectionError(
                                "pbs config changed".to_string(),
                            ),
                        ),
                    )
                }
            },
        }
    }
}

/// A session goes on or ends with each event, and ends well if and only if the validator is going
/// down: every other end is an error. Once it has ended, it waits for nothing more.
pub proof fn only_exit_ends_a_session_well(
    consumer: ConsumerView,
    event: ConsumerEventView,
    later: ConsumerEventView,
)
    ensures
        consumer.action(event) == ConsumerActionView::End(Ok(())) <==> event == (
        ConsumerEventView::Ready { exit: true }),
        consumer.action(event) is End <==> consumer.after(event).awaiting is Nothing,
        consumer.action(event) is End ==> !consumer.after(event).awaits(later),
{
}

/// Over any run, a session that has ended did so with the last event of the run, and well if and
/// only if that event was the news that the validator is going down.
pub proof fn sessions_end_once(consumer: ConsumerView, events: Seq<ConsumerEventView>)
    requires
        !(consumer.awaiting is Nothing),
        consumer.awaits_all(events),
    ensures
        consumer.actions(events).len() == events.len(),
        forall|i: int|
            0 <= i < events.len() ==> ((#[trigger] consumer.actions(events)[i]) is End <==> i
                == events.len() - 1 && consumer.after_all(events).awaiting is Nothing),
        forall|i: int|
            0 <= i < events.len() ==> ((#[trigger] consumer.actions(events)[i])
                == ConsumerActionView::End(Ok(())) <==> events[i] == (ConsumerEventView::Ready {
                exit: true,
            })),
    decreases events.len(),
{
    if events.len() > 0 {
        let earlier = events.drop_last();
        let before = consumer.after_all(earlier);
        sessions_end_once(consumer, earlier);
        only_exit_ends_a_session_well(before, events.last(), events.last());
        assert(!(before.awaiting is Nothing));
        assert forall|i: int| 0 <= i < events.len() implies ((
        #[trigger] consumer.actions(events)[i]) is End <==> i == events.len() - 1
            && consumer.after_all(events).awaiting is Nothing) by {
            if i < earlier.len() {
                assert(consumer.actions(events)[i] == consumer.actions(earlier)[i]);
            }
        }
        assert forall|i: int| 0 <= i < events.len() implies ((
        #[trigger] consumer.actions(events)[i]) == ConsumerActionView::End(Ok(())) <==> events[i]
            == (ConsumerEventView::Ready { exit: true })) by {
            if i < earlier.len() {
                assert(consumer.actions(events)[i] == consumer.actions(earlier)[i]);
                assert(events[i] == earlier[i]);
            }
        }
    }
}

/// The simulation settings bear on nothing: two sessions that differ in them alone do the same in
/// any run.
pub proof fn settings_bear_on_nothing(
    local_config: config::PbsConfigView,
    first: settings::SimulationSettingsView,
    second: settings::SimulationSettingsView,
    status: SlotBoundaryStatus,
    events: Seq<ConsumerEventView>,
)
    ensures
        ({
            let one = ConsumerView::started(local_config, first, status);
            let other = ConsumerView::started(local_config, second, status);
            &&& one.after_all(events) == other.after_all(events)
            &&& one.actions(events) == other.actions(events)
        }),
{
}

/// Whether what is done, if it is a report, gives zero simulated transactions.
pub open spec fn reports_no_simulation(action: ConsumerActionView) -> bool {
    action matches ConsumerActionView::Report(points) ==> points[6] == stats::stats_point(
        "num_simulated_transactions"@,
        0,
    )
}

/// No transaction is ever counted as simulated, nor reported to be.
pub proof fn nothing_is_simulated(consumer: ConsumerView, events: Seq<ConsumerEventView>)
    requires
        consumer.pbs_stats.num_simulated_transactions == 0,
    ensures
        consumer.after_all(events).pbs_stats.num_simulated_transactions == 0,
        consumer.actions(events).len() == events.len(),
        forall|i: int|
            0 <= i < events.len() ==> reports_no_simulation(#[trigger] consumer.actions(events)[i]),
    decreases events.len(),
{
    if events.len() > 0 {
        let earlier = events.drop_last();
        nothing_is_simulated(consumer, earlier);
        assert forall|i: int| 0 <= i < events.len() implies reports_no_simulation(
            #[trigger] consumer.actions(events)[i],
        ) by {
            if i < earlier.len() {
                assert(consumer.actions(events)[i] == consumer.actions(earlier)[i]);
            }
        }
    }
}

/// The bundles that an event brings.
pub open spec fn brought(event: ConsumerEventView) -> Seq<bundle::BundleView> {
    match event {
        ConsumerEventView::Message(Ok(Some(bundles))) => bundles,
        _ => Seq::empty(),
    }
}

/// The bundles that come in during a run of events, in order.
pub open spec fn received(events: Seq<ConsumerEventView>) -> Seq<bundle::BundleView>
    decreases events.len(),
{
    if events.len() == 0 {
        Seq::empty()
    } else {
        received(events.drop_last()) + brought(events.last())
    }
}

/// The number of bundles that is reported, if something is.
pub open spec fn reported_bundles(action: ConsumerActionView) -> int {
    match action {
        ConsumerActionView::Report(points) => points[0].value as int,
        _ => 0,
    }
}

impl ConsumerView {
    /// The numbers of bundles that are reported in a run of events, added up.
    pub open spec fn reported_in_all(self, events: Seq<ConsumerEventView>) -> int
        decreases events.len(),
    {
        if events.len() == 0 {
            0
        } else {
            self.reported_in_all(events.drop_last()) + reported_bundles(
                self.after_all(events.drop_last()).action(events.last()),
            )
        }
    }

    /// Those of the bundles that come in during a run of events that do so while no slot is
    /// running, in order.
    pub open spec fn received_between_slots(self, events: Seq<ConsumerEventView>) -> Seq<
        bundle::BundleView,
    >
        decreases events.len(),
    {
        if events.len() == 0 {
            Seq::empty()
        } else {
            let earlier = self.received_between_slots(events.drop_last());
            if self.after_all(events.drop_last()).slot_boundary_status
                == SlotBoundaryStatus::StandBy {
                earlier + brought(events.last())
            } else {
                earlier
            }
        }
    }

    /// The bundles that are handed on in a run of events, in order.
    pub open spec fn handed_on(self, events: Seq<ConsumerEventView>) -> Seq<bundle::BundleView>
        decreases events.len(),
    {
        if events.len() == 0 {
            Seq::empty()
        } else {
            self.handed_on(events.drop_last()) + handed_on_by(
                self.after_all(events.drop_last()).action(events.last()),
            )
        }
    }

    /// Nothing is kept while a slot is running.
    pub open spec fn well_formed(self) -> bool {
        self.slot_boundary_status == SlotBoundaryStatus::InProgress ==> self.retry_bundles.len()
            == 0
    }
}

/// The bundles that are handed on, if some are.
pub open spec fn handed_on_by(action: ConsumerActionView) -> Seq<bundle::BundleView> {
    match action {
        ConsumerActionView::SendBundles(bundles) => bundles,
        _ => Seq::empty(),
    }
}

/// Each report gives what was counted since the one before: over any run of a session, the numbers
/// of bundles that were reported and the number that is yet to be reported add up to the number of
/// bundles that came in. So where the run ends with a report, those that were reported add up to
/// those that came in. Left out are sessions whose counter passes the largest signed number, as
/// which it is reported.
pub proof fn reports_add_up(consumer: ConsumerView, events: Seq<ConsumerEventView>)
    requires
        forall|i: int|
            0 <= i <= events.len() ==> (#[trigger] consumer.after_all(
                events.take(i),
            )).pbs_stats.num_bundles <= i64::MAX,
    ensures
        consumer.reported_in_all(events) + consumer.after_all(events).pbs_stats.num_bundles
            == consumer.pbs_stats.num_bundles + received(events).len(),
        events.len() > 0 && events.last() is MetricsTick ==> consumer.reported_in_all(events)
            == consumer.pbs_stats.num_bundles + received(events).len(),
    decreases events.len(),
{
    if events.len() > 0 {
        let earlier = events.drop_last();
        assert forall|i: int| 0 <= i <= earlier.len() implies (#[trigger] consumer.after_all(
            earlier.take(i),
        )).pbs_stats.num_bundles <= i64::MAX by {
            assert(earlier.take(i) == events.take(i));
        }
        reports_add_up(consumer, earlier);
        assert(earlier.take(earlier.len() as int) == earlier);
        assert(events.take(events.len() as int) == events);
    }
}

/// What is handed on when a slot begins after a run without news of block production is what was
/// kept before it and all that it brought, in order; once it is handed on, nothing is kept.
pub proof fn bundles_between_slots_are_handed_on_again(
    consumer: ConsumerView,
    events: Seq<ConsumerEventView>,
)
    requires
        consumer.slot_boundary_status == SlotBoundaryStatus::StandBy,
        forall|i: int| 0 <= i < events.len() ==> !((#[trigger] events[i]) is SlotBoundaryChanged),
    ensures
        ({
            let begins = ConsumerEventView::SlotBoundaryChanged(
                Some(SlotBoundaryStatus::InProgress),
            );
            let after = consumer.after_all(events);
            &&& after.slot_boundary_status == SlotBoundaryStatus::StandBy
            &&& after.action(begins) == ConsumerActionView::SendBundles(
                consumer.retry_bundles + received(events),
            )
            &&& after.after(begins).retry_bundles.len() == 0
        }),
    decreases events.len(),
{
    if events.len() > 0 {
        let earlier = events.drop_last();
        assert forall|i: int| 0 <= i < earlier.len() implies !((
        #[trigger] earlier[i]) is SlotBoundaryChanged) by {
            assert(earlier[i] == events[i]);
        }
        bundles_between_slots_are_handed_on_again(consumer, earlier);
        assert(events.last() == events[events.len() - 1]);
    }
    assert(consumer.after_all(events).retry_bundles == consumer.retry_bundles + received(events));
}

/// Whatever happens, nothing is kept while a slot is running.
pub proof fn nothing_is_kept_within_a_slot(consumer: ConsumerView, events: Seq<ConsumerEventView>)
    requires
        consumer.well_formed(),
    ensures
        consumer.after_all(events).well_formed(),
    decreases events.len(),
{
    if events.len() > 0 {
        nothing_is_kept_within_a_slot(consumer, events.drop_last());
    }
}

/// No bundle is lost, and none is handed on more often than it should be: what is handed on in a
/// run of events, together with what is still kept after it, is each bundle that came in once, each
/// that came in between slots once more, and what had been kept before.
pub proof fn no_bundle_is_lost(consumer: ConsumerView, events: Seq<ConsumerEventView>)
    ensures
        consumer.handed_on(events).to_multiset().add(
            consumer.after_all(events).retry_bundles.to_multiset(),
        ) == received(events).to_multiset().add(
            consumer.received_between_slots(events).to_multiset(),
        ).add(consumer.retry_bundles.to_multiset()),
    decreases events.len(),
{
    let none = Seq::<bundle::BundleView>::empty();
    none.to_multiset_ensures();
    assert(none.to_multiset() =~= vstd::multiset::Multiset::empty());
    if events.len() > 0 {
        let earlier = events.drop_last();
        let before = consumer.after_all(earlier);
        let sent = handed_on_by(before.action(events.last()));
        let came = brought(events.last());
        no_bundle_is_lost(consumer, earlier);
        vstd::seq_lib::lemma_multiset_commutative(consumer.handed_on(earlier), sent);
        vstd::seq_lib::lemma_multiset_commutative(received(earlier), came);
        vstd::seq_lib::lemma_multiset_commutative(consumer.received_between_slots(earlier), came);
        vstd::seq_lib::lemma_multiset_commutative(before.retry_bundles, came);
        let total = consumer.handed_on(earlier).to_multiset().add(
            before.retry_bundles.to_multiset(),
        );
        assert forall|one: bundle::BundleView|
            consumer.handed_on(events).to_multiset().add(
                consumer.after_all(events).retry_bundles.to_multiset(),
            ).count(one) == #[trigger] received(events).to_multiset().add(
                consumer.received_between_slots(events).to_multiset(),
            ).add(consumer.retry_bundles.to_multiset()).count(one) by {
            assert(total.count(one) == received(earlier).to_multiset().add(
                consumer.received_between_slots(earlier).to_multiset(),
            ).add(consumer.retry_bundles.to_multiset()).count(one));
        }
    }
}

/// The block engine gets a batch only as long as the banking stage has to wait for it: a batch
/// that the delayer took in at `received` is shared up to the moment at which it may be released,
/// and counts as late after that.
pub proof fn batches_are_shared_while_they_are_held_back<B>(
    status: RunningLeaderStatus,
    batch: B,
    received: u64,
    now: u64,
)
    requires
        delayer::in_time(delayer::DelayerEvent::Received { batch, now: received }),
    ensures
        delayer::next_action(
            status,
            delayer::DelayerEvent::Received { batch, now: received },
        ) matches delayer::DelayerAction::Delay(held) && (packets::missed(held.deadline, now)
            <==> now > received + 300 * 1_000_000),
{
}

/// A session that reads the configuration goes on if and only if both the address and the id are
/// those that it was begun with; a change of either, or of both, ends it, and is told.
pub proof fn any_other_config_ends_a_session(consumer: ConsumerView, config: config::PbsConfigView)
    ensures
        ({
            let event = ConsumerEventView::ConfigRead(config);
            let same = config.pbs_url == consumer.local_config.pbs_url && config.uuid
                == consumer.local_config.uuid;
            &&& consumer.action(event) is Wait <==> same
            &&& !same ==> consumer.action(event) == ConsumerActionView::End(
                Err(error::PbsErrorView::AuthenticationConnectionError("pbs config changed"@)),
            )
            &&& same ==> consumer.after(event) == (ConsumerView {
                awaiting: AwaitingView::Ready,
                ..consumer
            })
            &&& !same ==> consumer.after(event).awaiting is Nothing
        }),
{
}

/// The configuration that a session is held to is the one that it was begun with, whatever happens.
pub proof fn a_session_keeps_its_config(consumer: ConsumerView, events: Seq<ConsumerEventView>)
    ensures
        consumer.after_all(events).local_config == consumer.local_config,
    decreases events.len(),
{
    if events.len() > 0 {
        a_session_keeps_its_config(consumer, events.drop_last());
    }
}

/// Whether or not a slot is running, the bundles of a message are handed on at once, as they came
/// and in the order in which they came. They are counted, and kept behind those that are kept
/// already if no slot is running.
pub proof fn messages_are_handed_on_at_once(
    consumer: ConsumerView,
    bundles: Seq<bundle::BundleView>,
)
    ensures
        ({
            let event = ConsumerEventView::Message(Ok(Some(bundles)));
            let after = consumer.after(event);
            &&& consumer.action(event) == ConsumerActionView::SendBundles(bundles)
            &&& after.pbs_stats == bundle::with_bundles(consumer.pbs_stats, bundles)
            &&& consumer.slot_boundary_status == SlotBoundaryStatus::StandBy ==> after.retry_bundles
                == consumer.retry_bundles + bundles
            &&& consumer.slot_boundary_status == SlotBoundaryStatus::InProgress
                ==> after.retry_bundles == consumer.retry_bundles
            &&& after.slot_boundary_status == consumer.slot_boundary_status
            &&& after.awaiting is BundlesSent
        }),
{
}

/// In a run without news of block production, within a slot or between two, the bundles that are
/// handed on are the bundles that come in, in the order in which they come in.
pub proof fn bundles_are_handed_on_in_order(
    consumer: ConsumerView,
    events: Seq<ConsumerEventView>,
)
    requires
        forall|i: int| 0 <= i < events.len() ==> !((#[trigger] events[i]) is SlotBoundaryChanged),
    ensures
        consumer.handed_on(events) == received(events),
        consumer.after_all(events).slot_boundary_status == consumer.slot_boundary_status,
        consumer.slot_boundary_status == SlotBoundaryStatus::InProgress ==> consumer.after_all(
            events,
        ).retry_bundles == consumer.retry_bundles,
    decreases events.len(),
{
    if events.len() > 0 {
        let earlier = events.drop_last();
        assert forall|i: int| 0 <= i < earlier.len() implies !((
        #[trigger] earlier[i]) is SlotBoundaryChanged) by {
            assert(earlier[i] == events[i]);
        }
        bundles_are_handed_on_in_order(consumer, earlier);
        assert(events.last() == events[events.len() - 1]);
    }
}

/// News that block production is in progress makes the session hand on what it kept, as it was kept,
/// and keep it no longer; news that it is not changes nothing but the status. Neither is counted.
pub proof fn a_slot_hands_on_what_was_kept(consumer: ConsumerView, status: SlotBoundaryStatus)
    ensures
        ({
            let event = ConsumerEventView::SlotBoundaryChanged(Some(status));
            let after = consumer.after(event);
            &&& after.slot_boundary_status == status
            &&& after.pbs_stats == consumer.pbs_stats
            &&& status == SlotBoundaryStatus::InProgress ==> {
                &&& consumer.action(event) == ConsumerActionView::SendBundles(
                    consumer.retry_bundles,
                )
                &&& after.retry_bundles.len() == 0
                &&& after.awaiting is BundlesSent
            }
            &&& status == SlotBoundaryStatus::StandBy ==> {
                &&& consumer.action(event) is Wait
                &&& after.retry_bundles == consumer.retry_bundles
                &&& after.awaiting is Ready
            }
        }),
{
}

/// Each fault ends the session with its own error.
pub proof fn faults_end_a_session(consumer: ConsumerView, status: Status)
    ensures
        consumer.action(ConsumerEventView::SlotBoundaryChanged(None)) == ConsumerActionView::End(
            Err(error::PbsErrorView::SlotBoundaryCheckerError),
        ),
        consumer.action(ConsumerEventView::Message(Ok(None))) == ConsumerActionView::End(
            Err(error::PbsErrorView::GrpcStreamDisconnected),
        ),
        consumer.action(ConsumerEventView::Message(Err(status))) == ConsumerActionView::End(
            Err(error::PbsErrorView::GrpcError(status)),
        ),
        consumer.action(ConsumerEventView::BundlesSent { sent: false }) == ConsumerActionView::End(
            Err(error::PbsErrorView::PacketForwardError),
        ),
        consumer.action(ConsumerEventView::RequestSent { sent: false }) == ConsumerActionView::End(
            Err(error::PbsErrorView::GrpcStreamDisconnected),
        ),
{
}

/// A session that is ready, or whose bundles were taken, goes on with what it has.
pub proof fn a_session_goes_on(consumer: ConsumerView)
    ensures
        consumer.action(ConsumerEventView::Ready { exit: false }) is Wait,
        consumer.after(ConsumerEventView::Ready { exit: false }) == (ConsumerView {
            awaiting: AwaitingView::Event,
            ..consumer
        }),
        consumer.action(ConsumerEventView::BundlesSent { sent: true }) is Wait,
        consumer.after(ConsumerEventView::BundlesSent { sent: true }) == (ConsumerView {
            awaiting: AwaitingView::Ready,
            ..consumer
        }),
{
}

/// A batch of packets is dropped if and only if its deadline lies before now or it is empty, and is
/// then counted as the one or, if it is in time, as the other. Of any other batch all transactions
/// that its packets bring are to be resolved, in order, and nothing is counted.
pub proof fn batches_are_taken_in_time(
    consumer: ConsumerView,
    packet_batches: Seq<PacketBatch>,
    deadline: u64,
    now: u64,
)
    ensures
        ({
            let event = ConsumerEventView::PacketsReceived { packet_batches, deadline, now };
            let after = consumer.after(event);
            &&& consumer.action(event) is Wait <==> deadline < now || packet_batches.len() == 0
            &&& consumer.action(event) is Resolve <==> deadline >= now && packet_batches.len() > 0
            &&& deadline < now ==> after.pbs_stats == packets::with_missing_deadline(
                consumer.pbs_stats,
            )
            &&& deadline >= now && packet_batches.len() == 0 ==> after.pbs_stats
                == packets::with_empty_packet_batch(consumer.pbs_stats)
            &&& consumer.action(event) is Wait ==> after.awaiting is Ready
            &&& consumer.action(event) is Resolve ==> {
                &&& after.pbs_stats == consumer.pbs_stats
                &&& after.awaiting == AwaitingView::Answers(
                    transaction::live_transactions(packet_batches),
                )
            }
            &&& after.retry_bundles == consumer.retry_bundles
            &&& after.slot_boundary_status == consumer.slot_boundary_status
        }),
{
}

/// What is sent to the block engine are the transactions that the batch gives with the answers, if
/// there are any; a batch that gives none is counted, and nothing is sent. What was sent is counted
/// by its number once it was taken, and only then.
pub proof fn what_was_accepted_is_sent_and_counted(
    consumer: ConsumerView,
    transactions: Seq<VersionedTransaction>,
    answers: Seq<Option<solana::LoadedAddressesView>>,
)
    requires
        consumer.awaiting == AwaitingView::Answers(transactions),
    ensures
        ({
            let event = ConsumerEventView::Answered(answers);
            let sent = packets::accepted_batch(transactions, answers);
            let after = consumer.after(event);
            let taken = after.after(ConsumerEventView::RequestSent { sent: true });
            &&& sent.len() == 0 ==> {
                &&& consumer.action(event) is Wait
                &&& after.pbs_stats == packets::with_empty_tx_batch(consumer.pbs_stats)
                &&& after.awaiting is Ready
            }
            &&& sent.len() > 0 ==> {
                &&& consumer.action(event) == ConsumerActionView::SendRequest(sent)
                &&& after.pbs_stats == consumer.pbs_stats
                &&& after.awaiting is RequestSent
                &&& after.action(ConsumerEventView::RequestSent { sent: true }) is Wait
                &&& taken.pbs_stats == packets::with_sanitized_transactions(
                    consumer.pbs_stats,
                    sent.len(),
                )
                &&& taken.awaiting is Ready
                &&& taken.retry_bundles == consumer.retry_bundles
            }
            &&& after.retry_bundles == consumer.retry_bundles
            &&& after.slot_boundary_status == consumer.slot_boundary_status
        }),
{
}

/// A report gives the counters as they stand, and they then begin anew; nothing else changes, and
/// the configuration is read next.
pub proof fn a_report_begins_the_counters_anew(consumer: ConsumerView)
    ensures
        consumer.action(ConsumerEventView::MetricsTick) == ConsumerActionView::Report(
            consumer.pbs_stats.reported(),
        ),
        consumer.after(ConsumerEventView::MetricsTick) == (ConsumerView {
            pbs_stats: PbsStageStats {
                num_bundles: 0,
                num_bundle_packets: 0,
                num_missing_deadlines: 0,
                num_empty_packet_batches: 0,
                num_sanitized_transactions: 0,
                num_empty_tx_batches: 0,
                num_simulated_transactions: 0,
            },
            awaiting: AwaitingView::Config,
            ..consumer
        }),
{
}

/// A session begins with nothing counted and nothing kept, with the configuration and the news of
/// block production that it was given.
pub proof fn a_session_begins_with_nothing(
    local_config: config::PbsConfigView,
    simulation_settings: settings::SimulationSettingsView,
    status: SlotBoundaryStatus,
)
    ensures
        ({
            let started = ConsumerView::started(local_config, simulation_settings, status);
            &&& started.local_config == local_config
            &&& started.slot_boundary_status == status
            &&& started.retry_bundles.len() == 0
            &&& started.awaiting is Ready
            &&& started.well_formed()
            &&& started.pbs_stats.num_bundles == 0
            &&& started.pbs_stats.num_bundle_packets == 0
            &&& started.pbs_stats.num_missing_deadlines == 0
            &&& started.pbs_stats.num_empty_packet_batches == 0
            &&& started.pbs_stats.num_sanitized_transactions == 0
            &&& started.pbs_stats.num_empty_tx_batches == 0
            &&& started.pbs_stats.num_simulated_transactions == 0
        }),
{
}

/// A session takes the outcome of what it was told to do before anything else: each action that asks
/// for an outcome leaves it waiting for that outcome alone, with an answer for each transaction.
pub proof fn a_session_waits_for_outcomes(consumer: ConsumerView, event: ConsumerEventView)
    ensures
        consumer.awaiting is Ready ==> (consumer.awaits(event) <==> event is Ready),
        consumer.awaiting is Event ==> (consumer.awaits(event) <==> event is SlotBoundaryChanged
            || event is Message || event is PacketsReceived || event is MetricsTick),
        consumer.awaiting is BundlesSent ==> (consumer.awaits(event) <==> event is BundlesSent),
        consumer.awaiting matches AwaitingView::Answers(transactions) ==> (consumer.awaits(event)
            <==> (event matches ConsumerEventView::Answered(answers) && answers.len()
            == transactions.len())),
        consumer.awaiting is RequestSent ==> (consumer.awaits(event) <==> event is RequestSent),
        consumer.awaiting is Config ==> (consumer.awaits(event) <==> event is ConfigRead),
        consumer.awaiting is Nothing ==> !consumer.awaits(event),
        consumer.action(event) is SendBundles ==> consumer.after(event).awaiting is BundlesSent,
        consumer.action(event) is Resolve ==> consumer.after(event).awaiting is Answers,
        consumer.action(event) is SendRequest ==> consumer.after(event).awaiting is RequestSent,
        consumer.action(event) is Report ==> consumer.after(event).awaiting is Config,
{
}

/// An event is seen as the event that it is, with what it brings in the order in which it does.
pub proof fn events_are_seen_as_they_are(event: ConsumerEvent<'_>)
    ensures
        event matches ConsumerEvent::Ready { exit } ==> event@ == (ConsumerEventView::Ready {
            exit,
        }),
        event matches ConsumerEvent::SlotBoundaryChanged(changed) ==> event@
            == ConsumerEventView::SlotBoundaryChanged(changed),
        event matches ConsumerEvent::Message(Ok(Some(response))) ==> {
            &&& event@ matches ConsumerEventView::Message(Ok(Some(bundles)))
            &&& bundles.len() == response.bundles@.len()
            &&& forall|i: int|
                0 <= i < bundles.len() ==> {
                    &&& (#[trigger] bundles[i]).packets == response.bundles@[i].packets@
                    &&& bundles[i].bundle_id == response.bundles@[i].uuid@
                }
        },
        event matches ConsumerEvent::Message(Ok(None)) ==> event@ == ConsumerEventView::Message(
            Ok(None),
        ),
        event matches ConsumerEvent::Message(Err(status)) ==> event@ == ConsumerEventView::Message(
            Err(status),
        ),
        event matches ConsumerEvent::BundlesSent { sent } ==> event@ == (
        ConsumerEventView::BundlesSent { sent }),
        event matches ConsumerEvent::PacketsReceived { packet_batches, deadline, now } ==> event@
            == (ConsumerEventView::PacketsReceived {
            packet_batches: packet_batches@,
            deadline,
            now,
        }),
        event matches ConsumerEvent::Answered(given) ==> {
            &&& event@ matches ConsumerEventView::Answered(answers)
            &&& answers.len() == given@.len()
            &&& forall|i: int|
                0 <= i < answers.len() ==> #[trigger] answers[i] == solana::loaded_view(given@[i])
        },
        event matches ConsumerEvent::RequestSent { sent } ==> event@ == (
        ConsumerEventView::RequestSent { sent }),
        event is MetricsTick ==> event@ is MetricsTick,
        event matches ConsumerEvent::ConfigRead(config) ==> {
            &&& event@ matches ConsumerEventView::ConfigRead(read)
            &&& read.pbs_url == config.pbs_url@
            &&& read.uuid == config.uuid@
        },
{
}

/// An action is seen as the action that it is, with what it hands on in the order in which it does.
pub proof fn actions_are_seen_as_they_are(action: ConsumerAction)
    ensures
        action is Wait <==> action@ is Wait,
        action is Resolve <==> action@ is Resolve,
        action matches ConsumerAction::SendBundles(given) ==> {
            &&& action@ matches ConsumerActionView::SendBundles(bundles)
            &&& bundles.len() == given@.len()
            &&& forall|i: int| 0 <= i < bundles.len() ==> #[trigger] bundles[i] == given@[i]@
        },
        action matches ConsumerAction::SendRequest(given) ==> {
            &&& action@ matches ConsumerActionView::SendRequest(transactions)
            &&& transactions.len() == given@.len()
            &&& forall|i: int|
                0 <= i < transactions.len() ==> #[trigger] transactions[i] == given@[i]@
        },
        action matches ConsumerAction::Report(given) ==> {
            &&& action@ matches ConsumerActionView::Report(points)
            &&& points.len() == given@.len()
            &&& forall|i: int| 0 <= i < points.len() ==> #[trigger] points[i] == given@[i]@
        },
        action matches ConsumerAction::End(Ok(_)) ==> action@ == ConsumerActionView::End(Ok(())),
        action matches ConsumerAction::End(Err(error)) ==> action@ == ConsumerActionView::End(
            Err(error@),
        ),
{
}

/// A session reports once a second.
pub proof fn reports_are_a_second_apart()
    ensures
        METRICS_TICK_S == 1,
{
}

} // verus!
