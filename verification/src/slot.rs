//! The slots that this validator leads, and how the stage follows them.
use vstd::prelude::*;

verus! {

/// How often the block producer is looked at.
pub const SLOT_BOUNDARY_CHECK_PERIOD_MS: u64 = 10;

/// Whether this validator is producing a block right now.
#[derive(Clone, Copy, Debug, PartialEq, Eq, Structural)]
pub enum SlotBoundaryStatus {
    StandBy,
    InProgress,
}

/// Where the delayer stands within a slot.
#[derive(Clone, Copy, Debug, PartialEq, Eq, Structural)]
pub enum RunningLeaderStatus {
    /// No slot of this validator is running.
    StandBy,
    /// A slot has begun, and its first moments go to the block engine alone.
    BankStart,
    /// A slot is running, and delayed packets are released.
    InProgress,
    /// The slot is over, and what is still delayed is released.
    Completed,
}

impl Default for SlotBoundaryStatus {
    fn default() -> (status: Self)
        ensures
            status == SlotBoundaryStatus::StandBy,
    {
        SlotBoundaryStatus::StandBy
    }
}

impl Default for RunningLeaderStatus {
    fn default() -> (status: Self)
        ensures
            status == RunningLeaderStatus::StandBy,
    {
        RunningLeaderStatus::StandBy
    }
}

impl From<bool> for SlotBoundaryStatus {
    fn from(value: bool) -> (status: Self) {
        if value {
            SlotBoundaryStatus::InProgress
        } else {
            SlotBoundaryStatus::StandBy
        }
    }
}

impl vstd::std_specs::convert::FromSpecImpl<bool> for SlotBoundaryStatus {
    open spec fn obeys_from_spec() -> bool {
        true
    }

    open spec fn from_spec(value: bool) -> SlotBoundaryStatus {
        if value {
            SlotBoundaryStatus::InProgress
        } else {
            SlotBoundaryStatus::StandBy
        }
    }
}

/// Whether a block is being produced: there is a working bank, and it still takes transactions.
/// `bank_start` is `None` where there is no working bank, and otherwise says whether the bank
/// still takes transactions.
pub fn is_poh_recorder_in_progress(bank_start: Option<bool>) -> (in_progress: bool)
    ensures
        in_progress == (bank_start == Some(true)),
{
    match bank_start {
        Some(still_processing) => still_processing,
        None => false,
    }
}

/// Whether an observation is news to those who know a published status.
pub open spec fn is_news(status: SlotBoundaryStatus, recent: SlotBoundaryStatus) -> bool {
    status != recent
}

impl SlotBoundaryStatus {
    /// The status that a look at the block producer gives.
    pub fn observe(bank_start: Option<bool>) -> (status: SlotBoundaryStatus)
        ensures
            status == observed_status(bank_start),
            status == SlotBoundaryStatus::InProgress <==> bank_start == Some(true),
    {
        SlotBoundaryStatus::from(is_poh_recorder_in_progress(bank_start))
    }

    /// Moves a published status to what was last observed, and says whether that is news.
    pub fn update(&mut self, recent: SlotBoundaryStatus) -> (changed: bool)
        ensures
            *final(self) == recent,
            changed == is_news(*old(self), recent),
            changed <==> *old(self) != recent,
    {
        if *self != recent {
            *self = recent;
            true
        } else {
            false
        }
    }
}

/// What the slot checker has seen.
#[derive(Clone, Copy, Debug, PartialEq, Eq, Structural)]
pub enum CheckerEvent {
    /// It is about to wait for the next tick; `exit` says whether the validator is going down.
    Ready { exit: bool },
    /// It has looked at the block producer.
    Looked { bank_start: Option<bool> },
}

/// What the slot checker does next.
#[derive(Clone, Copy, Debug, PartialEq, Eq, Structural)]
pub enum CheckerAction {
    /// Wait for the next tick, and look at the block producer.
    Look,
    /// Move the published status to this one, and tell whoever listens if that is news.
    Publish(SlotBoundaryStatus),
    /// Stop.
    Stop,
}

/// The status that a look at the block producer gives.
pub open spec fn observed_status(bank_start: Option<bool>) -> SlotBoundaryStatus {
    if bank_start == Some(true) {
        SlotBoundaryStatus::InProgress
    } else {
        SlotBoundaryStatus::StandBy
    }
}

/// What the slot checker does after an event.
pub open spec fn checker_action(event: CheckerEvent) -> CheckerAction {
    match event {
        CheckerEvent::Ready { exit: true } => CheckerAction::Stop,
        CheckerEvent::Ready { exit: false } => CheckerAction::Look,
        CheckerEvent::Looked { bank_start } => CheckerAction::Publish(observed_status(bank_start)),
    }
}

/// Decides what the slot checker does next: it looks and publishes in turn, until the validator is
/// going down.
pub fn slot_boundary_checker(event: CheckerEvent) -> (action: CheckerAction)
    ensures
        action == checker_action(event),
{
    match event {
        CheckerEvent::Ready { exit } => {
            if exit {
                CheckerAction::Stop
            } else {
                CheckerAction::Look
            }
        },
        CheckerEvent::Looked { bank_start } => CheckerAction::Publish(
            SlotBoundaryStatus::observe(bank_start),
        ),
    }
}

/// The status that is published after a run of observations.
pub open spec fn published(
    status: SlotBoundaryStatus,
    observed: Seq<SlotBoundaryStatus>,
) -> SlotBoundaryStatus {
    if observed.len() == 0 {
        status
    } else {
        observed.last()
    }
}

/// The news that a run of observations makes, in order.
pub open spec fn news(
    status: SlotBoundaryStatus,
    observed: Seq<SlotBoundaryStatus>,
) -> Seq<SlotBoundaryStatus>
    decreases observed.len(),
{
    if observed.len() == 0 {
        Seq::empty()
    } else {
        let earlier = news(status, observed.drop_last());
        if is_news(published(status, observed.drop_last()), observed.last()) {
            earlier.push(observed.last())
        } else {
            earlier
        }
    }
}

/// Whoever follows the news knows the published status, and no news repeats what was known: slots
/// are told to begin and to end in turn.
pub proof fn news_alternates(status: SlotBoundaryStatus, observed: Seq<SlotBoundaryStatus>)
    ensures
        published(status, news(status, observed)) == published(status, observed),
        forall|i: int|
            #![trigger news(status, observed)[i]]
            0 <= i < news(status, observed).len() ==> news(status, observed)[i] != published(
                status,
                news(status, observed).take(i),
            ),
    decreases observed.len(),
{
    if observed.len() > 0 {
        let earlier = news(status, observed.drop_last());
        let told = news(status, observed);
        news_alternates(status, observed.drop_last());
        assert forall|i: int| #![trigger told[i]] 0 <= i < told.len() implies told[i] != published(
            status,
            told.take(i),
        ) by {
            if i < earlier.len() {
                assert(told.take(i) == earlier.take(i));
                assert(told[i] == earlier[i]);
            } else {
                assert(told.take(i) == earlier);
            }
        }
    }
}

/// An event of the slot checker, and how many listen for news when it happens.
pub struct CheckerMoment {
    pub event: CheckerEvent,
    pub receivers: nat,
}

/// What a run of the slot checker has come to.
#[verifier::ext_equal]
pub struct CheckerRun {
    /// The published status.
    pub published: SlotBoundaryStatus,
    /// The statuses that were told as news, in order.
    pub told: Seq<SlotBoundaryStatus>,
    /// What the checker was last told to do.
    pub last: Option<CheckerAction>,
}

impl CheckerRun {
    /// A run that begins with a published status.
    pub open spec fn start(published: SlotBoundaryStatus) -> CheckerRun {
        CheckerRun { published, told: Seq::empty(), last: None }
    }

    /// Whether an event can be the next one: a look follows when one was asked for, and otherwise
    /// the checker is ready, unless it has stopped.
    pub open spec fn awaits(self, moment: CheckerMoment) -> bool {
        match self.last {
            None => moment.event is Ready,
            Some(CheckerAction::Look) => moment.event is Looked,
            Some(CheckerAction::Publish(_)) => moment.event is Ready,
            Some(CheckerAction::Stop) => false,
        }
    }

    /// The run after one more event, with what the checker then does.
    pub open spec fn after(self, moment: CheckerMoment) -> CheckerRun {
        let action = checker_action(moment.event);
        match action {
            CheckerAction::Publish(status) => CheckerRun {
                published: status,
                told: if is_news(self.published, status) {
                    self.told.push(status)
                } else {
                    self.told
                },
                last: Some(action),
            },
            _ => CheckerRun { last: Some(action), ..self },
        }
    }

    /// The run after some more events.
    pub open spec fn after_all(self, moments: Seq<CheckerMoment>) -> CheckerRun
        decreases moments.len(),
    {
        if moments.len() == 0 {
            self
        } else {
            self.after_all(moments.drop_last()).after(moments.last())
        }
    }
}

/// The statuses that were observed in a run of events, in order.
pub open spec fn observations(moments: Seq<CheckerMoment>) -> Seq<SlotBoundaryStatus>
    decreases moments.len(),
{
    if moments.len() == 0 {
        Seq::empty()
    } else {
        let earlier = observations(moments.drop_last());
        match moments.last().event {
            CheckerEvent::Looked { bank_start } => earlier.push(observed_status(bank_start)),
            CheckerEvent::Ready { .. } => earlier,
        }
    }
}

/// Over any run, the published status is what the last look gave, and whoever listens is told of it
/// if and only if it differs from the one before.
pub proof fn every_look_is_published(
    published_first: SlotBoundaryStatus,
    moments: Seq<CheckerMoment>,
)
    ensures
        CheckerRun::start(published_first).after_all(moments).published == published(
            published_first,
            observations(moments),
        ),
        CheckerRun::start(published_first).after_all(moments).told == news(
            published_first,
            observations(moments),
        ),
    decreases moments.len(),
{
    if moments.len() > 0 {
        let earlier = moments.drop_last();
        every_look_is_published(published_first, earlier);
        match moments.last().event {
            CheckerEvent::Looked { bank_start } => {
                assert(observations(moments).drop_last() == observations(earlier));
            },
            CheckerEvent::Ready { .. } => {},
        }
    }
}

/// The slot checker stops if and only if the validator is going down. As long as it is not, the
/// checker goes on, whatever it has seen and published, and even when nobody listens any more: what
/// it does is the same for any number of receivers.
pub proof fn only_exit_stops_the_checker(
    run: CheckerRun,
    moment: CheckerMoment,
    receivers: nat,
    next: CheckerMoment,
)
    ensures
        run.after(moment).last == Some(CheckerAction::Stop) <==> moment.event == (
        CheckerEvent::Ready { exit: true }),
        run.after(moment) == run.after(CheckerMoment { event: moment.event, receivers }),
        run.awaits(moment) == run.awaits(CheckerMoment { event: moment.event, receivers }),
        moment.event == (CheckerEvent::Ready { exit: true }) ==> !run.after(moment).awaits(next),
{
}

/// A look shows a block in production if and only if there is a working bank that still takes
/// transactions, and the published status is what the look shows. It is told if and only if it is
/// not what was published before, and a look is never a reason to stop.
pub proof fn a_look_tells_of_a_change(run: CheckerRun, bank_start: Option<bool>, receivers: nat)
    ensures
        ({
            let after = run.after(
                CheckerMoment { event: CheckerEvent::Looked { bank_start }, receivers },
            );
            &&& after.published == SlotBoundaryStatus::InProgress <==> bank_start == Some(true)
            &&& after.published != run.published ==> after.told == run.told.push(after.published)
            &&& after.published == run.published ==> after.told == run.told
            &&& after.last == Some(CheckerAction::Publish(after.published))
        }),
{
}

/// A checker that is ready looks again unless the validator is going down, and publishes nothing
/// without a look.
pub proof fn a_ready_checker_looks_again(run: CheckerRun, exit: bool, receivers: nat)
    ensures
        ({
            let after = run.after(CheckerMoment { event: CheckerEvent::Ready { exit }, receivers });
            &&& exit ==> after.last == Some(CheckerAction::Stop)
            &&& !exit ==> after.last == Some(CheckerAction::Look)
            &&& after.published == run.published
            &&& after.told == run.told
        }),
{
}

/// A status is made from whether a block is being produced.
pub proof fn status_follows_the_flag(in_progress: bool)
    ensures
        <SlotBoundaryStatus as vstd::std_specs::convert::FromSpec<bool>>::obeys_from_spec(),
        <SlotBoundaryStatus as vstd::std_specs::convert::FromSpec<bool>>::from_spec(in_progress)
            == SlotBoundaryStatus::InProgress <==> in_progress,
{
}

/// The block producer is looked at a hundred times a second.
pub proof fn looks_are_ten_milliseconds_apart()
    ensures
        SLOT_BOUNDARY_CHECK_PERIOD_MS == 10,
{
}

} // verus!
