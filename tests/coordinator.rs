use pet_coordinator::client::{ClientId, ClientState, HeartBeatResetError};
use pet_coordinator::coordinator::{
    after_aggregator_failure, AggregatorDecision, Coordinator, PhaseName, PhaseOutcome,
    RequestError, RoundSettings,
};
use pet_coordinator::heartbeat::{Countdown, TimerAction, TimerEvent, HEARTBEAT_TIMEOUT_SECS};
use pet_coordinator::params::{count_for_fraction, Fraction};
use pet_coordinator::registry::Clients;
use pet_coordinator::selector::{RandomSelector, Selector};

fn id(n: u128) -> ClientId {
    ClientId::from_u128(n)
}

fn coordinator(settings: RoundSettings) -> Coordinator {
    Coordinator::new(settings, Clients::new().0)
}

fn happy_settings() -> RoundSettings {
    RoundSettings {
        sum: Fraction { numerator: 2, denominator: 3 },
        update: Fraction { numerator: 1, denominator: 1 },
        sum_target: 2,
        update_target: 1,
        sum2_target: 0,
    }
}

fn selected(c: &Coordinator) -> Vec<ClientId> {
    c.clients.selected_ids()
}

#[test]
fn fraction_counts_round_up() {
    let f = Fraction { numerator: 2, denominator: 3 };
    assert_eq!(count_for_fraction(f, 3), 2);
    assert_eq!(count_for_fraction(f, 4), 3);
    assert_eq!(count_for_fraction(f, 0), 0);
    let tenth = Fraction { numerator: 1, denominator: 10 };
    assert_eq!(count_for_fraction(tenth, 1), 1);
    assert_eq!(count_for_fraction(tenth, 10), 1);
    assert_eq!(count_for_fraction(tenth, 11), 2);
    let none = Fraction { numerator: 0, denominator: 5 };
    assert_eq!(count_for_fraction(none, 100), 0);
    let all = Fraction { numerator: u64::MAX, denominator: u64::MAX };
    assert_eq!(count_for_fraction(all, usize::MAX), usize::MAX);
}

#[test]
fn selector_picks_distinct_waiting_clients() {
    let mut s = RandomSelector;
    let waiting: Vec<ClientId> = (1..=10).map(id).collect();
    for k in [0usize, 1, 3, 10, 25] {
        let r = s.select(k, waiting.clone(), Vec::new());
        assert_eq!(r.len(), k.min(10));
        for x in &r {
            assert!(waiting.contains(x));
        }
        let mut v: Vec<u128> = r.iter().map(|x| x.as_u128()).collect();
        v.sort();
        v.dedup();
        assert_eq!(v.len(), r.len());
    }
    assert!(s.select(3, Vec::new(), Vec::new()).is_empty());
    assert_eq!(s.select(usize::MAX, waiting.clone(), Vec::new()).len(), 10);
}

#[test]
fn registration_and_waiting() {
    let mut c = coordinator(happy_settings());
    let mut timers = Vec::new();
    for n in 1..=3 {
        timers.push(c.handle_register(id(n)).unwrap());
    }
    for n in 1..=3 {
        assert_eq!(c.clients.get_state(&id(n)), ClientState::Waiting);
    }
    // Every timer starts at 0 ms with the standard 10 s; after 4 s none fired.
    let mut countdowns: Vec<Countdown> = (0..3).map(|_| Countdown::start(0, 10_000)).collect();
    for t in countdowns.iter_mut() {
        assert_eq!(t.on_event(TimerEvent::Tick { now: 4_000 }), TimerAction::WaitUntil(10_000));
    }
    // B and C send heartbeats every 5 s; A stays silent.
    for now in [5_000u64, 10_000] {
        for k in 1..3 {
            assert_eq!(c.handle_heartbeat(&id(k as u128 + 1)), Ok(()));
            countdowns[k].on_event(TimerEvent::Reset { now, timeout: 10_000 });
        }
    }
    assert_eq!(countdowns[0].on_event(TimerEvent::Tick { now: 10_000 }), TimerAction::Expire);
    assert_eq!(countdowns[1].on_event(TimerEvent::Tick { now: 10_000 }), TimerAction::WaitUntil(20_000));
    c.handle_heartbeat_expired(id(1));
    assert_eq!(c.clients.get_state(&id(1)), ClientState::Unknown);
    assert_eq!(c.clients.get_state(&id(2)), ClientState::Waiting);
    assert_eq!(c.clients.get_state(&id(3)), ClientState::Waiting);
}

#[test]
fn full_happy_round() {
    let mut c = coordinator(happy_settings());
    let mut sel = RandomSelector;
    let mut timers = Vec::new();
    for n in 1..=3 {
        timers.push(c.handle_register(id(n)).unwrap());
    }
    assert!(c.start_round(vec![1, 2, 3], vec![4, 5]));
    assert_eq!(c.phase, PhaseName::NewRound);
    assert_eq!(c.round, 1);
    assert_eq!(c.params.round_id, 1);
    assert_eq!(c.params.pk, vec![1, 2, 3]);
    assert_eq!(c.params.seed, vec![4, 5]);

    let chosen = c.begin_sum(&mut sel);
    assert_eq!(c.phase, PhaseName::Sum);
    assert_eq!(chosen.len(), 2);
    assert_eq!(selected(&c).len(), 2);
    for x in &chosen {
        assert_eq!(c.clients.get_state(x), ClientState::Selected);
        assert_eq!(c.handle_submit(*x, PhaseName::Sum), Ok(()));
        assert!(c.submission_forwarded(*x));
        assert_eq!(c.clients.get_state(x), ClientState::Done);
    }
    assert!(c.target_reached());
    assert_eq!(c.end_phase(&mut sel, vec![], vec![]), PhaseOutcome::Advanced);
    assert_eq!(c.phase, PhaseName::Update);
    let upd = selected(&c);
    assert_eq!(upd.len(), 1);
    assert!(!chosen.contains(&upd[0]));
    assert_eq!(c.handle_submit(upd[0], PhaseName::Update), Ok(()));
    assert!(c.submission_forwarded(upd[0]));
    assert_eq!(c.end_phase(&mut sel, vec![], vec![]), PhaseOutcome::Advanced);
    assert_eq!(c.phase, PhaseName::Sum2);
    assert!(c.target_reached());
    assert_eq!(c.end_phase(&mut sel, vec![], vec![]), PhaseOutcome::Advanced);
    assert_eq!(c.phase, PhaseName::Aggregate);
    assert_eq!(c.aggregation_finished(true, vec![], vec![]), PhaseOutcome::Advanced);
    assert_eq!(c.phase, PhaseName::Idle);
    assert_eq!(c.round, 1);
}

#[test]
fn stale_submission_is_ignored() {
    let mut c = coordinator(happy_settings());
    let mut sel = RandomSelector;
    let mut timers = Vec::new();
    for n in 1..=3 {
        timers.push(c.handle_register(id(n)).unwrap());
    }
    c.start_round(vec![1], vec![2]);
    let chosen = c.begin_sum(&mut sel);
    for x in &chosen {
        c.handle_submit(*x, PhaseName::Sum).unwrap();
        c.submission_forwarded(*x);
    }
    c.end_phase(&mut sel, vec![], vec![]);
    assert_eq!(c.phase, PhaseName::Update);
    let x = selected(&c)[0];
    assert_eq!(
        c.handle_submit(x, PhaseName::Sum),
        Err(RequestError::UnexpectedMessage)
    );
    assert_eq!(c.clients.get_state(&x), ClientState::Ignored);
    assert_eq!(c.phase, PhaseName::Update);
    // A second message from the now ignored client changes nothing.
    assert_eq!(
        c.handle_submit(x, PhaseName::Update),
        Err(RequestError::UnexpectedMessage)
    );
    assert_eq!(c.clients.get_state(&x), ClientState::Ignored);
    assert!(!c.submission_forwarded(x));
    assert_eq!(
        c.handle_submit(id(99), PhaseName::Update),
        Err(RequestError::ClientNotFound)
    );
}

#[test]
fn deadline_short_of_target_aborts_the_round() {
    let mut c = coordinator(happy_settings());
    let mut sel = RandomSelector;
    let mut timers = Vec::new();
    for n in 1..=3 {
        timers.push(c.handle_register(id(n)).unwrap());
    }
    c.start_round(vec![1], vec![1]);
    let chosen = c.begin_sum(&mut sel);
    c.handle_submit(chosen[0], PhaseName::Sum).unwrap();
    c.submission_forwarded(chosen[0]);
    assert!(!c.target_reached());
    assert_eq!(c.end_phase(&mut sel, vec![9], vec![8]), PhaseOutcome::Aborted);
    assert_eq!(c.phase, PhaseName::NewRound);
    assert_eq!(c.round, 2);
    assert_eq!(c.params.round_id, 2);
    assert_eq!(c.params.pk, vec![9]);
    for n in 1..=3 {
        assert_eq!(c.clients.get_state(&id(n)), ClientState::Waiting);
    }
}

#[test]
fn aggregator_failure_starts_a_new_round() {
    let settings = RoundSettings {
        sum: Fraction { numerator: 1, denominator: 1 },
        update: Fraction { numerator: 1, denominator: 1 },
        sum_target: 0,
        update_target: 0,
        sum2_target: 0,
    };
    let mut c = coordinator(settings);
    let mut sel = RandomSelector;
    c.start_round(vec![], vec![]);
    c.begin_sum(&mut sel);
    c.end_phase(&mut sel, vec![], vec![]);
    c.end_phase(&mut sel, vec![], vec![]);
    c.end_phase(&mut sel, vec![], vec![]);
    assert_eq!(c.phase, PhaseName::Aggregate);
    assert_eq!(c.aggregation_finished(false, vec![7], vec![7]), PhaseOutcome::Aborted);
    assert_eq!(c.phase, PhaseName::NewRound);
    assert_eq!(c.round, 2);
}

#[test]
fn events_out_of_phase_change_nothing() {
    let mut c = coordinator(happy_settings());
    let mut sel = RandomSelector;
    assert!(c.begin_sum(&mut sel).is_empty());
    assert_eq!(c.phase, PhaseName::Idle);
    assert_eq!(c.end_phase(&mut sel, vec![], vec![]), PhaseOutcome::Unchanged);
    assert_eq!(c.aggregation_finished(true, vec![], vec![]), PhaseOutcome::Unchanged);
    assert!(c.start_round(vec![], vec![]));
    assert!(!c.start_round(vec![], vec![]));
    assert_eq!(c.round, 1);
}

#[test]
fn done_and_inactive_recovery() {
    let mut c = coordinator(happy_settings());
    let mut sel = RandomSelector;
    let mut timers = Vec::new();
    for n in 1..=3 {
        timers.push(c.handle_register(id(n)).unwrap());
    }
    c.start_round(vec![], vec![]);
    let chosen = c.begin_sum(&mut sel);
    let x = chosen[0];
    c.handle_submit(x, PhaseName::Sum).unwrap();
    assert!(c.submission_forwarded(x));
    assert_eq!(c.clients.get_state(&x), ClientState::Done);
    c.handle_heartbeat_expired(x);
    assert_eq!(c.clients.get_state(&x), ClientState::DoneAndInactive);
    assert_eq!(c.handle_heartbeat(&x), Err(HeartBeatResetError::ClientNotFound));
    c.handle_heartbeat_expired(x);
    assert_eq!(c.clients.get_state(&x), ClientState::DoneAndInactive);
    assert_eq!(c.end_phase(&mut sel, vec![], vec![]), PhaseOutcome::Aborted);
    assert_eq!(c.clients.get_state(&x), ClientState::Unknown);
    let timer = c.handle_register(x).unwrap();
    assert_eq!(timer.id, x);
    assert_eq!(timer.timeout_secs, HEARTBEAT_TIMEOUT_SECS);
    assert_eq!(c.clients.get_state(&x), ClientState::Waiting);
    assert_eq!(c.handle_heartbeat(&x), Ok(()));
}

#[test]
fn aborting_a_round_starts_the_next_one() {
    let mut c = coordinator(happy_settings());
    let mut sel = RandomSelector;
    assert_eq!(c.abort_round(vec![1], vec![1]), PhaseOutcome::Unchanged);
    assert_eq!(c.round, 0);
    let timer = c.handle_register(id(1)).unwrap();
    c.start_round(vec![], vec![]);
    c.begin_sum(&mut sel);
    assert_eq!(c.clients.get_state(&id(1)), ClientState::Selected);
    assert_eq!(c.abort_round(vec![3], vec![4]), PhaseOutcome::Aborted);
    assert_eq!(c.phase, PhaseName::NewRound);
    assert_eq!(c.round, 2);
    assert_eq!(c.params.seed, vec![4]);
    assert_eq!(c.clients.get_state(&id(1)), ClientState::Waiting);
    drop(timer);
}

/// A policy that takes the waiting clients with the smallest identifiers.
struct LowestFirst;

impl Selector for LowestFirst {
    fn select(&mut self, min_count: usize, waiting: Vec<ClientId>, _selected: Vec<ClientId>) -> Vec<ClientId> {
        let mut w = waiting;
        w.sort_by_key(|c| c.as_u128());
        w.truncate(min_count);
        w
    }
}

#[test]
fn another_selection_policy_plugs_in() {
    let mut c = coordinator(happy_settings());
    let mut timers = Vec::new();
    for n in [30u128, 10, 20] {
        timers.push(c.handle_register(id(n)).unwrap());
    }
    c.start_round(vec![], vec![]);
    let mut chosen = c.begin_sum(&mut LowestFirst);
    chosen.sort_by_key(|c| c.as_u128());
    assert_eq!(chosen, vec![id(10), id(20)]);
    assert_eq!(c.clients.get_state(&id(30)), ClientState::Waiting);
}

#[test]
fn submissions_outside_submission_phases_are_refused() {
    let mut c = coordinator(happy_settings());
    let mut sel = RandomSelector;
    let mut timers = Vec::new();
    for n in 1..=3 {
        timers.push(c.handle_register(id(n)).unwrap());
    }
    c.start_round(vec![], vec![]);
    let chosen = c.begin_sum(&mut sel);
    for x in &chosen {
        c.handle_submit(*x, PhaseName::Sum).unwrap();
        c.submission_forwarded(*x);
    }
    c.end_phase(&mut sel, vec![], vec![]);
    let x = selected(&c)[0];
    c.handle_submit(x, PhaseName::Update).unwrap();
    c.submission_forwarded(x);
    c.end_phase(&mut sel, vec![], vec![]);
    c.end_phase(&mut sel, vec![], vec![]);
    assert_eq!(c.phase, PhaseName::Aggregate);
    // Everyone is done, so no one is selected; bring one back through a new round.
    c.abort_round(vec![], vec![]);
    assert_eq!(c.phase, PhaseName::NewRound);
    c.begin_sum(&mut sel);
    let y = selected(&c)[0];
    c.phase = PhaseName::Aggregate;
    assert_eq!(
        c.handle_submit(y, PhaseName::Aggregate),
        Err(RequestError::UnexpectedMessage)
    );
    assert_eq!(c.clients.get_state(&y), ClientState::Ignored);
}

#[test]
fn update_phase_selects_only_waiting_clients() {
    let mut c = coordinator(happy_settings());
    let mut sel = RandomSelector;
    let mut timers = Vec::new();
    for n in 1..=5 {
        timers.push(c.handle_register(id(n)).unwrap());
    }
    c.start_round(vec![], vec![]);
    let chosen = c.begin_sum(&mut sel);
    assert_eq!(chosen.len(), 4);
    for x in chosen.iter().take(2) {
        c.handle_submit(*x, PhaseName::Sum).unwrap();
        c.submission_forwarded(*x);
    }
    assert_eq!(c.end_phase(&mut sel, vec![], vec![]), PhaseOutcome::Advanced);
    // One client waited; the update fraction of one takes it, and the two
    // still selected from the sum phase stay selected.
    let now_selected = selected(&c);
    assert_eq!(now_selected.len(), 3);
    for x in chosen.iter().take(2) {
        assert_eq!(c.clients.get_state(x), ClientState::Done);
    }
}

#[test]
fn the_aggregator_gets_one_retry() {
    assert_eq!(after_aggregator_failure(1), AggregatorDecision::Retry);
    assert_eq!(after_aggregator_failure(2), AggregatorDecision::GiveUp);
    assert_eq!(after_aggregator_failure(7), AggregatorDecision::GiveUp);
}
