//! How a session with the block engine comes about.
//!
//! A session connects, asks for the simulation settings and subscribes to the stream of bundles,
//! in this order. Each of the three is given [`CONNECTION_TIMEOUT_S`] to answer, and the first
//! that fails ends the session.
use vstd::prelude::*;

use crate::config;
use crate::config::PbsConfig;
use crate::error;
use crate::error::PbsError;
use crate::grpc;
use crate::settings;
use crate::settings::{SimulationSettings, SimulationSettingsResponse};
use tonic::transport::Endpoint;

verus! {

/// How long the block engine may take to answer.
pub const CONNECTION_TIMEOUT_S: u64 = 10;

/// What came of a call to the block engine.
#[derive(Debug)]
pub enum CallOutcome<T> {
    /// There was no answer in time.
    TimedOut,
    /// The call failed; the text says why.
    Failed(String),
    /// The answer.
    Done(T),
}

/// The answers that a session waits for.
#[derive(Debug)]
pub enum SessionEvent {
    Connected(CallOutcome<()>),
    SettingsReceived(CallOutcome<SimulationSettingsResponse>),
    Subscribed(CallOutcome<()>),
}

/// What a session is waiting for.
#[derive(Debug)]
pub enum Session {
    /// The connection.
    Connecting,
    /// The simulation settings.
    FetchingSettings,
    /// The stream of bundles.
    Subscribing(SimulationSettings),
    /// Nothing any more: the stream is open.
    Streaming(SimulationSettings),
}

/// What a [`CallOutcome`] holds.
#[verifier::ext_equal]
#[verifier::reject_recursive_types(T)]
pub enum CallOutcomeView<T> {
    TimedOut,
    Failed(Seq<char>),
    Done(T),
}

impl<T: View> View for CallOutcome<T> {
    type V = CallOutcomeView<T::V>;

    open spec fn view(&self) -> CallOutcomeView<T::V> {
        match *self {
            CallOutcome::TimedOut => CallOutcomeView::TimedOut,
            CallOutcome::Failed(text) => CallOutcomeView::Failed(text@),
            CallOutcome::Done(answer) => CallOutcomeView::Done(answer@),
        }
    }
}

/// What a [`SessionEvent`] holds.
#[verifier::ext_equal]
pub enum SessionEventView {
    Connected(CallOutcomeView<()>),
    SettingsReceived(CallOutcomeView<settings::SimulationSettingsResponseView>),
    Subscribed(CallOutcomeView<()>),
}

impl View for SessionEvent {
    type V = SessionEventView;

    open spec fn view(&self) -> SessionEventView {
        match *self {
            SessionEvent::Connected(outcome) => SessionEventView::Connected(outcome@),
            SessionEvent::SettingsReceived(outcome) => SessionEventView::SettingsReceived(outcome@),
            SessionEvent::Subscribed(outcome) => SessionEventView::Subscribed(outcome@),
        }
    }
}

/// What a [`Session`] holds.
#[verifier::ext_equal]
pub enum SessionView {
    Connecting,
    FetchingSettings,
    Subscribing(settings::SimulationSettingsView),
    Streaming(settings::SimulationSettingsView),
}

impl View for Session {
    type V = SessionView;

    open spec fn view(&self) -> SessionView {
        match *self {
            Session::Connecting => SessionView::Connecting,
            Session::FetchingSettings => SessionView::FetchingSettings,
            Session::Subscribing(settings) => SessionView::Subscribing(settings@),
            Session::Streaming(settings) => SessionView::Streaming(settings@),
        }
    }
}

/// What a session has come to: it goes on, or it has ended with an error.
pub type SetUp = Result<SessionView, error::PbsErrorView>;

impl SessionView {
    /// The number of answers that have come.
    pub open spec fn answers(self) -> nat {
        match self {
            SessionView::Connecting => 0,
            SessionView::FetchingSettings => 1,
            SessionView::Subscribing(_) => 2,
            SessionView::Streaming(_) => 3,
        }
    }

    /// Whether an answer is the one that the session is waiting for.
    pub open spec fn awaits(self, event: SessionEventView) -> bool {
        match event {
            SessionEventView::Connected(_) => self is Connecting,
            SessionEventView::SettingsReceived(_) => self is FetchingSettings,
            SessionEventView::Subscribed(_) => self is Subscribing,
        }
    }

    /// What the session comes to with an answer.
    pub open spec fn after(self, event: SessionEventView) -> SetUp {
        match event {
            SessionEventView::Connected(CallOutcomeView::TimedOut) => Err(
                error::PbsErrorView::PbsConnectionTimeout,
            ),
            SessionEventView::Connected(CallOutcomeView::Failed(text)) => Err(
                error::PbsErrorView::PbsConnectionError(text),
            ),
            SessionEventView::Connected(CallOutcomeView::Done(_)) => Ok(
                SessionView::FetchingSettings,
            ),
            SessionEventView::SettingsReceived(CallOutcomeView::TimedOut) => Err(
                error::PbsErrorView::MethodTimeout("pbs_simulation_settings"@),
            ),
            SessionEventView::SettingsReceived(CallOutcomeView::Failed(text)) => Err(
                error::PbsErrorView::MethodError(text),
            ),
            SessionEventView::SettingsReceived(CallOutcomeView::Done(
                response,
            )) => match response.settings() {
                Ok(settings) => Ok(SessionView::Subscribing(settings)),
                Err(error) => Err(error),
            },
            SessionEventView::Subscribed(CallOutcomeView::TimedOut) => Err(
                error::PbsErrorView::MethodTimeout("pbs_subscribe"@),
            ),
            SessionEventView::Subscribed(CallOutcomeView::Failed(text)) => Err(
                error::PbsErrorView::MethodError(text),
            ),
            SessionEventView::Subscribed(CallOutcomeView::Done(_)) => Ok(
                SessionView::Streaming(self->Subscribing_0),
            ),
        }
    }
}

impl Session {
    /// Begins a session: the endpoint to connect to, or the reason why there is none.
    pub fn connect_and_stream(local_config: &PbsConfig) -> (begun: Result<
        (Session, Endpoint),
        PbsError,
    >)
        ensures
            match begun {
                Ok((session, endpoint)) => {
                    &&& session@ is Connecting
                    &&& grpc::endpoint_settings(endpoint).tls <==> "https"@.is_prefix_of(
                        local_config.pbs_url@,
                    )
                    &&& local_config@.endpoint_settings() == Ok::<_, config::EndpointFailure>(
                        grpc::endpoint_settings(endpoint),
                    )
                },
                Err(error) => {
                    &&& local_config@.endpoint_settings() is Err
                    &&& error@ == config::endpoint_failure(
                        local_config@.endpoint_settings()->Err_0,
                        local_config@.pbs_url,
                    )
                },
            },
    {
        match local_config.endpoint() {
            Ok(endpoint) => Ok((Session::Connecting, endpoint)),
            Err(error) => Err(error),
        }
    }

    /// Takes an answer that the session is waiting for, and says what it waits for next, or why it
    /// ends.
    pub fn advance(self, event: SessionEvent) -> (next: Result<Session, PbsError>)
        requires
            self@.awaits(event@),
        ensures
            match next {
                Ok(session) => self@.after(event@) == SetUp::Ok(session@),
                Err(error) => self@.after(event@) == SetUp::Err(error@),
            },
    {
        match event {
            SessionEvent::Connected(CallOutcome::TimedOut) => Err(PbsError::PbsConnectionTimeout),
            SessionEvent::Connected(CallOutcome::Failed(text)) => Err(
                PbsError::PbsConnectionError(text),
            ),
            SessionEvent::Connected(CallOutcome::Done(_)) => Ok(Session::FetchingSettings),
            SessionEvent::SettingsReceived(CallOutcome::TimedOut) => Err(
                PbsError::MethodTimeout("pbs_simulation_settings".to_string()),
            ),
            SessionEvent::SettingsReceived(CallOutcome::Failed(text)) => Err(
                PbsError::MethodError(text),
            ),
            SessionEvent::SettingsReceived(CallOutcome::Done(response)) => {
                match SimulationSettings::try_from(response) {
                    Ok(settings) => Ok(Session::Subscribing(settings)),
                    Err(error) => Err(error),
                }
            },
            SessionEvent::Subscribed(CallOutcome::TimedOut) => Err(
                PbsError::MethodTimeout("pbs_subscribe".to_string()),
            ),
            SessionEvent::Subscribed(CallOutcome::Failed(text)) => Err(PbsError::MethodError(text)),
            SessionEvent::Subscribed(CallOutcome::Done(_)) => {
                match self {
                    Session::Subscribing(settings) => Ok(Session::Streaming(settings)),
                    _ => vstd::pervasive::unreached(),
                }
            },
        }
    }
}

/// What a session comes to with some answers, of which none counts once it has ended.
pub open spec fn set_up(events: Seq<SessionEventView>) -> SetUp
    decreases events.len(),
{
    if events.len() == 0 {
        Ok(SessionView::Connecting)
    } else {
        match set_up(events.drop_last()) {
            Ok(session) => session.after(events.last()),
            Err(error) => Err(error),
        }
    }
}

/// Whether a session is waiting for each of some answers when it comes.
pub open spec fn awaited_answers(events: Seq<SessionEventView>) -> bool
    decreases events.len(),
{
    events.len() == 0 || {
        &&& awaited_answers(events.drop_last())
        &&& set_up(events.drop_last()) matches Ok(session) && session.awaits(events.last())
    }
}

/// The sum of some waits.
pub open spec fn total_wait(waits: Seq<nat>) -> nat
    decreases waits.len(),
{
    if waits.len() == 0 {
        0
    } else {
        total_wait(waits.drop_last()) + waits.last()
    }
}

/// A session that goes on after some answers has had that many: after three it is streaming, and
/// then it waits for no other.
pub proof fn three_answers_set_a_session_up(events: Seq<SessionEventView>)
    requires
        awaited_answers(events),
    ensures
        events.len() <= 3,
        set_up(events) matches Ok(session) ==> session.answers() == events.len(),
        events.len() == 3 ==> set_up(events) is Err || set_up(events)->Ok_0 is Streaming,
    decreases events.len(),
{
    if events.len() > 0 {
        three_answers_set_a_session_up(events.drop_last());
    }
}

/// If no answer is waited for longer than it may take, a session that is streaming or has ended has
/// come to that within three times as long, even where the block engine stays silent.
pub proof fn setting_up_is_bounded(events: Seq<SessionEventView>, waits: Seq<nat>)
    requires
        awaited_answers(events),
        waits.len() == events.len(),
        forall|i: int| 0 <= i < waits.len() ==> #[trigger] waits[i] <= CONNECTION_TIMEOUT_S,
    ensures
        total_wait(waits) <= 3 * CONNECTION_TIMEOUT_S,
{
    three_answers_set_a_session_up(events);
    lemma_total_wait(waits);
}

/// Some waits that are all bounded are bounded together.
proof fn lemma_total_wait(waits: Seq<nat>)
    requires
        forall|i: int| 0 <= i < waits.len() ==> #[trigger] waits[i] <= CONNECTION_TIMEOUT_S,
    ensures
        total_wait(waits) <= waits.len() * CONNECTION_TIMEOUT_S,
    decreases waits.len(),
{
    if waits.len() > 0 {
        lemma_total_wait(waits.drop_last());
        assert(waits.last() == waits[waits.len() - 1]);
    }
}

/// A session goes on with an answer if and only if the call was answered, and, where it asked for
/// the settings, the answer can be read. It then waits for the next answer, with the settings that
/// were read, which it keeps.
pub proof fn answers_take_a_session_on(session: SessionView, event: SessionEventView)
    requires
        session.awaits(event),
    ensures
        session.after(event) is Ok <==> {
            ||| event matches SessionEventView::Connected(CallOutcomeView::Done(_))
            ||| event matches SessionEventView::SettingsReceived(CallOutcomeView::Done(response))
                && response.settings() is Ok
            ||| event matches SessionEventView::Subscribed(CallOutcomeView::Done(_))
        },
        session.after(event) matches Ok(next) ==> {
            &&& session is Connecting ==> next is FetchingSettings
            &&& session is FetchingSettings ==> {
                &&& next matches SessionView::Subscribing(settings)
                &&& event matches SessionEventView::SettingsReceived(CallOutcomeView::Done(response))
                &&& response.settings() == Ok::<_, error::PbsErrorView>(settings)
            }
            &&& session matches SessionView::Subscribing(settings) ==> next
                == SessionView::Streaming(settings)
        },
{
}

/// Where a call gets no answer in time, the error says which it was; where a call fails, the error
/// carries the reason, and tells a connection from a method; where the settings cannot be read, it
/// says so.
pub proof fn failed_calls_end_a_session(session: SessionView, event: SessionEventView)
    requires
        session.awaits(event),
    ensures
        event matches SessionEventView::Connected(outcome) ==> {
            &&& outcome is TimedOut ==> session.after(event) == SetUp::Err(
                error::PbsErrorView::PbsConnectionTimeout,
            )
            &&& outcome matches CallOutcomeView::Failed(text) ==> session.after(event)
                == SetUp::Err(error::PbsErrorView::PbsConnectionError(text))
        },
        event matches SessionEventView::SettingsReceived(outcome) ==> {
            &&& outcome is TimedOut ==> session.after(event) == SetUp::Err(
                error::PbsErrorView::MethodTimeout("pbs_simulation_settings"@),
            )
            &&& outcome matches CallOutcomeView::Failed(text) ==> session.after(event)
                == SetUp::Err(error::PbsErrorView::MethodError(text))
            &&& outcome matches CallOutcomeView::Done(response) ==> (response.settings() is Err
                ==> session.after(event) == SetUp::Err(
                error::PbsErrorView::SimulationSettingsError,
            ))
        },
        event matches SessionEventView::Subscribed(outcome) ==> {
            &&& outcome is TimedOut ==> session.after(event) == SetUp::Err(
                error::PbsErrorView::MethodTimeout("pbs_subscribe"@),
            )
            &&& outcome matches CallOutcomeView::Failed(text) ==> session.after(event)
                == SetUp::Err(error::PbsErrorView::MethodError(text))
        },
{
}

/// A session waits for one answer at a time: first for the connection, then for the settings, and
/// then for the stream, and for none once that is open.
pub proof fn a_session_waits_for_one_answer(session: SessionView, event: SessionEventView)
    ensures
        session is Connecting ==> (session.awaits(event) <==> event is Connected),
        session is FetchingSettings ==> (session.awaits(event) <==> event is SettingsReceived),
        session is Subscribing ==> (session.awaits(event) <==> event is Subscribed),
        session is Streaming ==> !session.awaits(event),
{
}

/// The block engine has ten seconds for an answer.
pub proof fn an_answer_may_take_ten_seconds()
    ensures
        CONNECTION_TIMEOUT_S == 10,
{
}

/// An answer is seen as the answer that it is, and a session as what it is waiting for, with the
/// settings that it keeps.
pub proof fn sessions_are_seen_as_they_are(session: Session, event: SessionEvent)
    ensures
        session is Connecting <==> session@ is Connecting,
        session is FetchingSettings <==> session@ is FetchingSettings,
        session matches Session::Subscribing(settings) ==> session@ == SessionView::Subscribing(
            settings@,
        ),
        session matches Session::Streaming(settings) ==> session@ == SessionView::Streaming(
            settings@,
        ),
        event matches SessionEvent::Connected(outcome) ==> {
            &&& event@ is Connected
            &&& outcome is TimedOut ==> event@->Connected_0 is TimedOut
            &&& outcome matches CallOutcome::Failed(text) ==> event@->Connected_0
                == CallOutcomeView::<()>::Failed(text@)
            &&& outcome is Done ==> event@->Connected_0 is Done
        },
        event matches SessionEvent::SettingsReceived(outcome) ==> {
            &&& event@ is SettingsReceived
            &&& outcome is TimedOut ==> event@->SettingsReceived_0 is TimedOut
            &&& outcome matches CallOutcome::Failed(text) ==> (event@->SettingsReceived_0 is Failed
                && event@->SettingsReceived_0->Failed_0 == text@)
            &&& outcome matches CallOutcome::Done(response) ==> event@->SettingsReceived_0
                == CallOutcomeView::Done(response@)
        },
        event matches SessionEvent::Subscribed(outcome) ==> {
            &&& event@ is Subscribed
            &&& outcome is TimedOut ==> event@->Subscribed_0 is TimedOut
            &&& outcome matches CallOutcome::Failed(text) ==> event@->Subscribed_0
                == CallOutcomeView::<()>::Failed(text@)
            &&& outcome is Done ==> event@->Subscribed_0 is Done
        },
{
}

} // verus!
