use pbs_stage::delayer::{Delayer, DelayerAction, DelayerEvent, DelayerStop, Held};
use pbs_stage::forwarder::{
    forward_packet_batches, Destination, ForwardAction, ForwardEvent, ForwardStop,
};
use pbs_stage::slot::{
    slot_boundary_checker, CheckerAction, CheckerEvent,
    is_poh_recorder_in_progress, RunningLeaderStatus, SlotBoundaryStatus,
    SLOT_BOUNDARY_CHECK_PERIOD_MS,
};

const MS: u64 = 1_000_000;

/// Batches are told apart by a number.
type Event = DelayerEvent<u32>;

fn changed(boundary: SlotBoundaryStatus, now: u64) -> Event {
    DelayerEvent::SlotBoundaryChanged { boundary, now }
}

fn released(queue_empty: bool) -> Event {
    Event::Released { sent: true, queue_empty }
}

fn delayer(status: RunningLeaderStatus) -> Delayer {
    Delayer { status }
}

#[test]
fn statuses_default_to_stand_by() {
    assert_eq!(SlotBoundaryStatus::default(), SlotBoundaryStatus::StandBy);
    assert_eq!(RunningLeaderStatus::default(), RunningLeaderStatus::StandBy);
    assert_eq!(SLOT_BOUNDARY_CHECK_PERIOD_MS, 10);
}

#[test]
fn a_block_is_produced_only_by_a_bank_that_takes_transactions() {
    assert!(!is_poh_recorder_in_progress(None));
    assert!(!is_poh_recorder_in_progress(Some(false)));
    assert!(is_poh_recorder_in_progress(Some(true)));
    assert_eq!(SlotBoundaryStatus::observe(None), SlotBoundaryStatus::StandBy);
    assert_eq!(SlotBoundaryStatus::observe(Some(false)), SlotBoundaryStatus::StandBy);
    assert_eq!(SlotBoundaryStatus::observe(Some(true)), SlotBoundaryStatus::InProgress);
    assert_eq!(SlotBoundaryStatus::from(true), SlotBoundaryStatus::InProgress);
    assert_eq!(SlotBoundaryStatus::from(false), SlotBoundaryStatus::StandBy);
}

#[test]
fn news_of_slots_comes_in_turn() {
    let observed = [false, true, true, false, false, true];
    let mut status = SlotBoundaryStatus::default();
    let mut news = Vec::new();
    for in_progress in observed {
        if status.update(SlotBoundaryStatus::from(in_progress)) {
            news.push(status);
        }
    }
    assert_eq!(
        news,
        vec![
            SlotBoundaryStatus::InProgress,
            SlotBoundaryStatus::StandBy,
            SlotBoundaryStatus::InProgress,
        ]
    );
    assert_eq!(status, SlotBoundaryStatus::InProgress);
}

#[test]
fn a_delayer_begins_where_block_production_stands() {
    assert_eq!(Delayer::new(SlotBoundaryStatus::StandBy).status, RunningLeaderStatus::StandBy);
    assert_eq!(
        Delayer::new(SlotBoundaryStatus::InProgress).status,
        RunningLeaderStatus::InProgress
    );
}

#[test]
fn a_slot_runs_through_its_statuses() {
    let mut delayer = Delayer::new(SlotBoundaryStatus::StandBy);
    assert!(!delayer.awaits_release());
    assert!(!delayer.awaits_slot_start());

    let action = delayer.delay_packet_batches(changed(SlotBoundaryStatus::InProgress, 1_000));
    assert_eq!(action, DelayerAction::ArmSlotStart { at: 20 * MS + 1_000 });
    assert_eq!(delayer.status, RunningLeaderStatus::BankStart);
    assert!(delayer.awaits_slot_start());
    assert!(!delayer.awaits_release());

    let action = delayer.delay_packet_batches(Event::SlotStartElapsed);
    assert_eq!(action, DelayerAction::Wait);
    assert_eq!(delayer.status, RunningLeaderStatus::InProgress);
    assert!(delayer.awaits_release());

    assert_eq!(delayer.delay_packet_batches(released(true)), DelayerAction::Wait);
    assert_eq!(delayer.status, RunningLeaderStatus::InProgress);

    let action = delayer.delay_packet_batches(changed(SlotBoundaryStatus::StandBy, 2_000));
    assert_eq!(action, DelayerAction::Wait);
    assert_eq!(delayer.status, RunningLeaderStatus::Completed);
    assert!(delayer.awaits_release());
}

#[test]
fn a_completed_slot_is_left_when_the_last_batch_has_gone() {
    let mut delayer = delayer(RunningLeaderStatus::Completed);
    assert_eq!(delayer.delay_packet_batches(released(false)), DelayerAction::Wait);
    assert_eq!(delayer.status, RunningLeaderStatus::Completed);
    assert_eq!(delayer.delay_packet_batches(Event::TimerFailed), DelayerAction::Wait);
    assert_eq!(delayer.status, RunningLeaderStatus::Completed);
    assert_eq!(delayer.delay_packet_batches(released(true)), DelayerAction::Wait);
    assert_eq!(delayer.status, RunningLeaderStatus::StandBy);
}

#[test]
fn the_next_slot_may_begin_before_the_last_batch_has_gone() {
    let mut delayer = delayer(RunningLeaderStatus::Completed);
    let action = delayer.delay_packet_batches(changed(SlotBoundaryStatus::InProgress, 0));
    assert_eq!(action, DelayerAction::ArmSlotStart { at: 20 * MS });
    assert_eq!(delayer.status, RunningLeaderStatus::BankStart);
}

#[test]
fn a_slot_may_end_within_its_first_moments() {
    let mut delayer = delayer(RunningLeaderStatus::BankStart);
    let action = delayer.delay_packet_batches(changed(SlotBoundaryStatus::StandBy, 7));
    assert_eq!(action, DelayerAction::Wait);
    assert_eq!(delayer.status, RunningLeaderStatus::StandBy);
}

#[test]
fn the_same_news_twice_changes_nothing() {
    let statuses = [
        RunningLeaderStatus::StandBy,
        RunningLeaderStatus::BankStart,
        RunningLeaderStatus::InProgress,
        RunningLeaderStatus::Completed,
    ];
    for boundary in [SlotBoundaryStatus::StandBy, SlotBoundaryStatus::InProgress] {
        for status in statuses {
            let mut delayer = delayer(status);
            delayer.delay_packet_batches(changed(boundary, 1));
            let once = delayer.status;
            assert_eq!(delayer.delay_packet_batches(changed(boundary, 2)), DelayerAction::Wait);
            assert_eq!(delayer.status, once);
        }
    }
}

#[test]
fn the_status_follows_block_production() {
    let mut delayer = Delayer::new(SlotBoundaryStatus::InProgress);
    delayer.delay_packet_batches(changed(SlotBoundaryStatus::StandBy, 1));
    assert_eq!(delayer.status, RunningLeaderStatus::Completed);
    delayer.delay_packet_batches(released(true));
    assert_eq!(delayer.status, RunningLeaderStatus::StandBy);
    delayer.delay_packet_batches(changed(SlotBoundaryStatus::InProgress, 2));
    delayer.delay_packet_batches(Event::Received { batch: 7, now: 3 });
    assert_eq!(delayer.status, RunningLeaderStatus::BankStart);
}

#[test]
fn nothing_is_released_before_a_slot_has_started() {
    let mut delayer = Delayer::new(SlotBoundaryStatus::StandBy);
    for event in [
        Event::Received { batch: 7, now: 1 },
        Event::Forwarded { sent: true },
        changed(SlotBoundaryStatus::InProgress, 2),
        changed(SlotBoundaryStatus::StandBy, 3),
        changed(SlotBoundaryStatus::InProgress, 4),
    ] {
        delayer.delay_packet_batches(event);
        assert!(!delayer.awaits_release());
    }
    delayer.delay_packet_batches(Event::SlotStartElapsed);
    assert!(delayer.awaits_release());
}

#[test]
fn a_batch_is_held_back_for_300_ms() {
    for status in [RunningLeaderStatus::StandBy, RunningLeaderStatus::InProgress] {
        let mut delayer = delayer(status);
        let action = delayer.delay_packet_batches(Event::Received { batch: 7, now: 5 });
        assert_eq!(action, DelayerAction::Delay(Held { batch: 7, deadline: 300 * MS + 5 }));
        assert_eq!(delayer.status, status);
    }
}

#[test]
fn the_delayer_stops_when_a_neighbour_is_gone() {
    let mut delayer = delayer(RunningLeaderStatus::InProgress);
    assert_eq!(
        delayer.delay_packet_batches(Event::SlotBoundaryClosed),
        DelayerAction::Stop(DelayerStop::SlotBoundaryClosed)
    );
    assert_eq!(
        delayer.delay_packet_batches(Event::Released { sent: false, queue_empty: true }),
        DelayerAction::Stop(DelayerStop::BankingClosed)
    );
    assert_eq!(
        delayer.delay_packet_batches(Event::Forwarded { sent: false }),
        DelayerAction::Stop(DelayerStop::PbsClosed)
    );
    assert_eq!(
        delayer.delay_packet_batches(Event::Forwarded { sent: true }),
        DelayerAction::Wait
    );
}

#[test]
fn a_failed_release_leaves_the_status() {
    let mut delayer = delayer(RunningLeaderStatus::Completed);
    delayer.delay_packet_batches(Event::Released { sent: false, queue_empty: true });
    assert_eq!(delayer.status, RunningLeaderStatus::Completed);
}

#[test]
fn the_delayer_stops_on_exit() {
    let mut delayer = delayer(RunningLeaderStatus::StandBy);
    assert_eq!(delayer.delay_packet_batches(Event::Ready { exit: false }), DelayerAction::Wait);
    assert_eq!(
        delayer.delay_packet_batches(Event::Ready { exit: true }),
        DelayerAction::Stop(DelayerStop::Exit)
    );
    assert_eq!(delayer.status, RunningLeaderStatus::StandBy);
}

/// Runs a delayer over batches that come in at given moments, with a queue that gives each back at
/// its deadline: what the session was offered, and what was released at which moment.
fn run_delayer(arrivals: &[(u32, u64)]) -> (Vec<Held<u32>>, Vec<(Held<u32>, u64)>) {
    let mut delayer = Delayer::new(SlotBoundaryStatus::InProgress);
    let (mut offered, mut queue, mut released) = (Vec::new(), Vec::new(), Vec::new());
    for (batch, now) in arrivals {
        match delayer.delay_packet_batches(Event::Received { batch: *batch, now: *now }) {
            DelayerAction::Delay(held) => {
                queue.push(held.clone());
                offered.push(held);
            }
            other => panic!("not held back: {other:?}"),
        }
        let action = delayer.delay_packet_batches(Event::Forwarded { sent: true });
        assert_eq!(action, DelayerAction::Wait);
    }
    while let Some(held) = queue.pop() {
        let now = held.deadline;
        match delayer.delay_packet_batches(Event::Expired(held)) {
            DelayerAction::Release(held) => released.push((held, now)),
            other => panic!("not released: {other:?}"),
        }
        let queue_empty = queue.is_empty();
        delayer.delay_packet_batches(Event::Released { sent: true, queue_empty });
    }
    (offered, released)
}

#[test]
fn every_batch_is_offered_in_order_with_its_deadline() {
    let (offered, _) = run_delayer(&[(1, 10), (2, 10), (1, 20)]);
    assert_eq!(
        offered,
        vec![
            Held { batch: 1, deadline: 300 * MS + 10 },
            Held { batch: 2, deadline: 300 * MS + 10 },
            Held { batch: 1, deadline: 300 * MS + 20 },
        ]
    );
}

#[test]
fn only_offered_batches_are_released() {
    let (mut offered, mut released) = run_delayer(&[(4, 3), (5, 6), (6, 9)]);
    assert!(released.iter().all(|(held, now)| held.deadline <= *now));
    offered.sort_by_key(|held| held.batch);
    released.sort_by_key(|(held, _)| held.batch);
    assert_eq!(offered, released.into_iter().map(|(held, _)| held).collect::<Vec<_>>());
}

/// Runs a forwarder over batches, each with whether a session is running when it comes in; the
/// batch `broken` finds nobody. What the delayer got, what banking got, and what was lost.
fn run_forwarder(arrivals: &[(u32, bool)], broken: u32) -> (Vec<u32>, Vec<u32>, Option<u32>) {
    let (mut to_pbs, mut to_banking, mut lost) = (Vec::new(), Vec::new(), None);
    let mut arrivals = arrivals.iter();
    let mut event = ForwardEvent::Ready { exit: false };
    loop {
        event = match forward_packet_batches(event) {
            ForwardAction::Receive => match arrivals.next() {
                Some((batch, pbs_active)) => {
                    ForwardEvent::Received { batch: *batch, pbs_active: *pbs_active }
                }
                None => ForwardEvent::ReceiverClosed,
            },
            ForwardAction::Send(destination, batch) if batch == broken => {
                lost = Some(batch);
                ForwardEvent::SendFailed(destination)
            }
            ForwardAction::Send(Destination::Pbs, batch) => {
                to_pbs.push(batch);
                ForwardEvent::Ready { exit: false }
            }
            ForwardAction::Send(Destination::Banking, batch) => {
                to_banking.push(batch);
                ForwardEvent::Ready { exit: false }
            }
            ForwardAction::Stop(_) => return (to_pbs, to_banking, lost),
        };
    }
}

#[test]
fn each_side_gets_its_batches_in_order() {
    let arrivals = [(1, true), (2, false), (3, true), (4, false), (5, false)];
    assert_eq!(run_forwarder(&arrivals, 0), (vec![1, 3], vec![2, 4, 5], None));
}

#[test]
fn only_the_last_batch_can_be_lost() {
    let arrivals = [(1, true), (2, false), (3, true), (4, false), (5, false)];
    assert_eq!(run_forwarder(&arrivals, 3), (vec![1], vec![2], Some(3)));
    assert_eq!(run_forwarder(&arrivals, 4), (vec![1, 3], vec![2], Some(4)));
}

#[test]
fn banking_gets_each_batch_at_most_once() {
    let arrivals = [(1, true), (2, false), (3, true), (4, false)];
    let (to_pbs, mut banking, _) = run_forwarder(&arrivals, 0);
    let delayed: Vec<(u32, u64)> = to_pbs.into_iter().map(|batch| (batch, 5)).collect();
    let (_, released) = run_delayer(&delayed);
    banking.extend(released.into_iter().map(|(held, _)| held.batch));
    banking.sort();
    assert_eq!(banking, vec![1, 2, 3, 4]);
}

#[test]
fn packets_go_to_the_block_engine_only_while_a_session_runs() {
    assert_eq!(
        forward_packet_batches(ForwardEvent::Received { batch: 'x', pbs_active: true }),
        ForwardAction::Send(Destination::Pbs, 'x')
    );
    assert_eq!(
        forward_packet_batches(ForwardEvent::Received { batch: 'x', pbs_active: false }),
        ForwardAction::Send(Destination::Banking, 'x')
    );
}

#[test]
fn the_forwarder_stops_for_four_reasons() {
    assert_eq!(
        forward_packet_batches(ForwardEvent::<u32>::Ready { exit: false }),
        ForwardAction::Receive
    );
    assert_eq!(
        forward_packet_batches(ForwardEvent::<u32>::Ready { exit: true }),
        ForwardAction::Stop(ForwardStop::Exit)
    );
    assert_eq!(
        forward_packet_batches(ForwardEvent::<u32>::ReceiverClosed),
        ForwardAction::Stop(ForwardStop::ReceiverClosed)
    );
    assert_eq!(
        forward_packet_batches(ForwardEvent::<u32>::SendFailed(Destination::Pbs)),
        ForwardAction::Stop(ForwardStop::PbsClosed)
    );
    assert_eq!(
        forward_packet_batches(ForwardEvent::<u32>::SendFailed(Destination::Banking)),
        ForwardAction::Stop(ForwardStop::BankingClosed)
    );
}

#[test]
fn only_exit_stops_the_slot_checker() {
    assert_eq!(slot_boundary_checker(CheckerEvent::Ready { exit: true }), CheckerAction::Stop);
    assert_eq!(slot_boundary_checker(CheckerEvent::Ready { exit: false }), CheckerAction::Look);
    for (bank_start, status) in [
        (None, SlotBoundaryStatus::StandBy),
        (Some(false), SlotBoundaryStatus::StandBy),
        (Some(true), SlotBoundaryStatus::InProgress),
    ] {
        assert_eq!(
            slot_boundary_checker(CheckerEvent::Looked { bank_start }),
            CheckerAction::Publish(status)
        );
    }
}

#[test]
fn every_look_is_published() {
    let looks = [Some(true), Some(true), None, Some(false), Some(true)];
    let mut published = SlotBoundaryStatus::default();
    let mut told = Vec::new();
    for bank_start in looks {
        match slot_boundary_checker(CheckerEvent::Looked { bank_start }) {
            CheckerAction::Publish(status) => {
                if published.update(status) {
                    told.push(published);
                }
                assert_eq!(published, SlotBoundaryStatus::observe(bank_start));
            }
            other => panic!("not published: {other:?}"),
        }
    }
    assert_eq!(
        told,
        vec![
            SlotBoundaryStatus::InProgress,
            SlotBoundaryStatus::StandBy,
            SlotBoundaryStatus::InProgress,
        ]
    );
}

#[test]
fn a_completed_slot_drains_before_standing_by() {
    let mut delayer = Delayer::new(SlotBoundaryStatus::InProgress);
    let mut queue = Vec::new();
    for batch in [1, 2] {
        match delayer.delay_packet_batches(Event::Received { batch, now: 0 }) {
            DelayerAction::Delay(held) => queue.push(held),
            other => panic!("not held back: {other:?}"),
        }
        delayer.delay_packet_batches(Event::Forwarded { sent: true });
    }
    delayer.delay_packet_batches(changed(SlotBoundaryStatus::StandBy, 1));
    let mut released = Vec::new();
    while let Some(held) = queue.pop() {
        assert_eq!(delayer.status, RunningLeaderStatus::Completed);
        match delayer.delay_packet_batches(Event::Expired(held)) {
            DelayerAction::Release(held) => released.push(held.batch),
            other => panic!("not released: {other:?}"),
        }
        let queue_empty = queue.is_empty();
        delayer.delay_packet_batches(Event::Released { sent: true, queue_empty });
    }
    assert_eq!(delayer.status, RunningLeaderStatus::StandBy);
    assert_eq!(released, vec![2, 1]);
}
