//! The stage as a whole: when it connects, when it waits, and what its errors amount to.
use vstd::prelude::*;

use crate::config::{ConfigFault, PbsConfig};
use crate::error::PbsError;
use crate::forwarder;
use crate::session;
use crate::session::{Session, SessionEvent};

verus! {

/// How long the stage waits before it looks at its configuration again.
pub const CONNECTION_BACKOFF_S: u64 = 5;

/// The stage.
#[derive(Debug)]
pub struct PbsEngineStage {
    /// The number of sessions that ended with an error.
    pub error_count: u64,
    /// Whether a session with the block engine is running.
    pub is_pbs_active: bool,
}

/// What the stage does after a look at its configuration.
#[derive(Clone, Copy, Debug, PartialEq, Eq, Structural)]
pub enum StageAction {
    /// Stop: the validator is going down.
    Stop,
    /// Wait, since no connection can be tried, and look again.
    Backoff { fault: ConfigFault, seconds: u64 },
    /// Begin a session.
    Connect,
}

/// What the stage does after a session.
#[derive(Debug)]
pub enum SessionEnd {
    /// Go on at once.
    Finished,
    /// Report the error with the number of errors so far, and wait before going on.
    Failed { count: u64, error: PbsError, seconds: u64 },
}

impl PbsEngineStage {
    /// The stage as it begins.
    pub fn start() -> (stage: PbsEngineStage)
        ensures
            stage == (PbsEngineStage { error_count: 0, is_pbs_active: false }),
    {
        PbsEngineStage { error_count: 0, is_pbs_active: false }
    }

    /// Whether a connection can be tried with a configuration: there is an address, and there is
    /// an id that can be sent as metadata.
    pub fn is_valid_pbs_config(config: &PbsConfig) -> (valid: bool)
        ensures
            valid == config@.valid(),
    {
        config.fault().is_none()
    }

    /// What a look at the configuration leads to.
    pub open spec fn attempted(exit: bool, fault: Option<ConfigFault>) -> StageAction {
        if exit {
            StageAction::Stop
        } else {
            match fault {
                Some(fault) => StageAction::Backoff { fault, seconds: CONNECTION_BACKOFF_S },
                None => StageAction::Connect,
            }
        }
    }

    /// The stage after a look at the configuration.
    pub open spec fn after_attempt(self, exit: bool) -> PbsEngineStage {
        if exit {
            PbsEngineStage { is_pbs_active: false, ..self }
        } else {
            self
        }
    }

    /// The stage after the stream of bundles has been opened.
    pub open spec fn after_session_started(self) -> PbsEngineStage {
        PbsEngineStage { is_pbs_active: true, ..self }
    }

    /// The stage after an answer of the block engine with which a session came to the given state:
    /// the session is running once its stream is open.
    pub open spec fn after_answer(self, outcome: session::SetUp) -> PbsEngineStage {
        match outcome {
            Ok(session::SessionView::Streaming(_)) => self.after_session_started(),
            _ => self,
        }
    }

    /// The stage after a session has ended, with an error or without.
    pub open spec fn after_session(self, failed: bool) -> PbsEngineStage {
        if failed {
            PbsEngineStage { error_count: (self.error_count + 1) as u64, is_pbs_active: false }
        } else {
            self
        }
    }

    /// Looks at the configuration: a valid one is tried, and any other is waited on.
    pub fn attempt(&mut self, exit: bool, config: &PbsConfig) -> (action: StageAction)
        ensures
            action == PbsEngineStage::attempted(exit, config@.fault()),
            action is Connect ==> config@.valid(),
            *final(self) == old(self).after_attempt(exit),
    {
        if exit {
            self.is_pbs_active = false;
            return StageAction::Stop;
        }
        match config.fault() {
            Some(fault) => StageAction::Backoff { fault, seconds: CONNECTION_BACKOFF_S },
            None => StageAction::Connect,
        }
    }

    /// Hands an answer of the block engine to the session that is waiting for it, and notes whether
    /// the stream of bundles is open.
    pub fn advance(&mut self, session: Session, event: SessionEvent) -> (next: Result<
        Session,
        PbsError,
    >)
        requires
            session@.awaits(event@),
        ensures
            match next {
                Ok(next) => session@.after(event@) == session::SetUp::Ok(next@),
                Err(error) => session@.after(event@) == session::SetUp::Err(error@),
            },
            *final(self) == old(self).after_answer(session@.after(event@)),
    {
        let next = session.advance(event)?;
        match &next {
            Session::Streaming(_) => {
                self.is_pbs_active = true;
            },
            _ => {},
        }
        Ok(next)
    }

    /// Notes how a session ended. After an error the stage waits; after an orderly end it does not.
    pub fn session_ended(&mut self, result: Result<(), PbsError>) -> (end: SessionEnd)
        requires
            result is Err ==> old(self).error_count < u64::MAX,
        ensures
            *final(self) == old(self).after_session(result is Err),
            match result {
                Ok(_) => end is Finished,
                Err(error) => end == (SessionEnd::Failed {
                    count: final(self).error_count,
                    error,
                    seconds: CONNECTION_BACKOFF_S,
                }),
            },
            end matches SessionEnd::Failed { count, seconds, .. } ==> {
                &&& count == old(self).error_count + 1
                &&& seconds == 5
            },
    {
        match result {
            Ok(_) => SessionEnd::Finished,
            Err(error) => {
                self.is_pbs_active = false;
                self.error_count = self.error_count + 1;
                SessionEnd::Failed {
                    count: self.error_count,
                    error,
                    seconds: CONNECTION_BACKOFF_S,
                }
            },
        }
    }
}

/// What happens to the stage as a whole.
pub enum StageEvent {
    Attempted { exit: bool },
    SessionStarted,
    SessionEnded { failed: bool },
}

/// The stage after an event.
pub open spec fn stage_after_event(stage: PbsEngineStage, event: StageEvent) -> PbsEngineStage {
    match event {
        StageEvent::Attempted { exit } => stage.after_attempt(exit),
        StageEvent::SessionStarted => stage.after_session_started(),
        StageEvent::SessionEnded { failed } => stage.after_session(failed),
    }
}

/// The stage after a run of events.
pub open spec fn stage_after(stage: PbsEngineStage, events: Seq<StageEvent>) -> PbsEngineStage
    decreases events.len(),
{
    if events.len() == 0 {
        stage
    } else {
        stage_after_event(stage_after(stage, events.drop_last()), events.last())
    }
}

/// The number of sessions of a run that ended with an error.
pub open spec fn failures(events: Seq<StageEvent>) -> nat {
    events.filter(|event: StageEvent| event == (StageEvent::SessionEnded { failed: true })).len()
}

/// The count of errors is the number of sessions that ended with one.
pub proof fn errors_are_counted(stage: PbsEngineStage, events: Seq<StageEvent>)
    requires
        stage.error_count + failures(events) <= u64::MAX,
    ensures
        stage_after(stage, events).error_count == stage.error_count + failures(events),
    decreases events.len(),
{
    reveal(Seq::filter);
    if events.len() > 0 {
        errors_are_counted(stage, events.drop_last());
    }
}

/// Where the forwarder sends a batch that comes in while the stage is as given.
pub open spec fn destination<B>(stage: PbsEngineStage, batch: B) -> forwarder::ForwardAction<B> {
    forwarder::forward_action(
        forwarder::ForwardEvent::Received { batch, pbs_active: stage.is_pbs_active },
    )
}

/// While no session has begun, packets go straight to the banking stage.
pub proof fn nothing_is_shared_without_a_session<B>(
    stage: PbsEngineStage,
    events: Seq<StageEvent>,
    batch: B,
)
    requires
        !stage.is_pbs_active,
        forall|i: int| 0 <= i < events.len() ==> events[i] != StageEvent::SessionStarted,
    ensures
        !stage_after(stage, events).is_pbs_active,
        destination(stage_after(stage, events), batch) == forwarder::ForwardAction::Send(
            forwarder::Destination::Banking,
            batch,
        ),
    decreases events.len(),
{
    if events.len() > 0 {
        let earlier = events.drop_last();
        assert forall|i: int| 0 <= i < earlier.len() implies earlier[i]
            != StageEvent::SessionStarted by {
            assert(earlier[i] == events[i]);
        }
        nothing_is_shared_without_a_session(stage, earlier, batch);
        assert(events.last() == events[events.len() - 1]);
    }
}

/// After a session has failed, and after the stage has stopped, packets go straight to the banking
/// stage until another session begins.
pub proof fn nothing_is_shared_after_a_failure<B>(
    stage: PbsEngineStage,
    end: StageEvent,
    events: Seq<StageEvent>,
    batch: B,
)
    requires
        end == (StageEvent::SessionEnded { failed: true }) || end == (StageEvent::Attempted {
            exit: true,
        }),
        forall|i: int| 0 <= i < events.len() ==> events[i] != StageEvent::SessionStarted,
    ensures
        destination(stage_after(stage_after_event(stage, end), events), batch)
            == forwarder::ForwardAction::Send(forwarder::Destination::Banking, batch),
{
    nothing_is_shared_without_a_session(stage_after_event(stage, end), events, batch);
}

/// The stage after some answers of the block engine to a session that is being set up.
pub open spec fn stage_after_answers(
    stage: PbsEngineStage,
    answers: Seq<session::SessionEventView>,
) -> PbsEngineStage
    decreases answers.len(),
{
    if answers.len() == 0 {
        stage
    } else {
        stage_after_answers(stage, answers.drop_last()).after_answer(session::set_up(answers))
    }
}

/// A session that has not come to its stream, because it is still being set up or has ended before,
/// leaves the stage as it was. One that has come to it counts as running.
pub proof fn setting_up_leaves_the_stage_as_it_was(
    stage: PbsEngineStage,
    answers: Seq<session::SessionEventView>,
)
    requires
        session::awaited_answers(answers),
    ensures
        stage_after_answers(stage, answers) == stage.after_answer(session::set_up(answers)),
        !(session::set_up(answers) matches Ok(session::SessionView::Streaming(_)))
            ==> stage_after_answers(stage, answers) == stage,
    decreases answers.len(),
{
    if answers.len() > 0 {
        setting_up_leaves_the_stage_as_it_was(stage, answers.drop_last());
    }
}

/// A stage that the validator takes down stops and counts as inactive. Any other connects if and
/// only if the configuration has no fault, and otherwise waits five seconds, for the fault that was
/// found; either way it stays as it is.
pub proof fn attempts_follow_the_config(
    stage: PbsEngineStage,
    exit: bool,
    fault: Option<ConfigFault>,
)
    ensures
        PbsEngineStage::attempted(exit, fault) is Stop <==> exit,
        PbsEngineStage::attempted(exit, fault) is Connect <==> !exit && fault is None,
        !exit && fault is Some ==> PbsEngineStage::attempted(exit, fault) == (
        StageAction::Backoff { fault: fault->0, seconds: 5 }),
        stage.after_attempt(exit).error_count == stage.error_count,
        stage.after_attempt(exit).is_pbs_active <==> stage.is_pbs_active && !exit,
{
}

/// A session that ends with an error is counted, and none is running after it; one that ends well
/// changes nothing. An opened stream makes a session count as running, and is no error.
pub proof fn only_failures_are_counted(stage: PbsEngineStage)
    ensures
        stage.error_count < u64::MAX ==> stage.after_session(true).error_count
            == stage.error_count + 1,
        !stage.after_session(true).is_pbs_active,
        stage.after_session(false) == stage,
        stage.after_session_started().is_pbs_active,
        stage.after_session_started().error_count == stage.error_count,
{
}

/// An answer of the block engine makes a session count as running if and only if it opened the
/// stream, and changes nothing else.
pub proof fn only_an_open_stream_counts_as_running(stage: PbsEngineStage, outcome: session::SetUp)
    ensures
        stage.after_answer(outcome).error_count == stage.error_count,
        stage.after_answer(outcome).is_pbs_active <==> stage.is_pbs_active || (outcome matches Ok(
            session::SessionView::Streaming(_),
        )),
{
}

} // verus!
