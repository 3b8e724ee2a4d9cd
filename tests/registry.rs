use std::time::Duration;
use pet_coordinator::client::{
    is_valid_transition, ClientId, ClientState, HeartBeatResetError, InvalidClientStateError,
};
use pet_coordinator::heartbeat::{
    reset_result, Countdown, HeartBeatTimer, ResetDelivery, TimerAction,
    TimerEvent, HEARTBEAT_TIMEOUT_SECS,
};
use pet_coordinator::registry::Clients;

const ALL_STATES: [ClientState; 6] = [
    ClientState::Waiting,
    ClientState::Selected,
    ClientState::Done,
    ClientState::Ignored,
    ClientState::DoneAndInactive,
    ClientState::Unknown,
];

fn store() -> Clients {
    Clients::new().0
}

fn id(n: u128) -> ClientId {
    ClientId::from_u128(n)
}

/// Bring a freshly registered client into `target` along graph edges.
fn drive(c: &mut Clients, who: ClientId, target: ClientState) -> Vec<HeartBeatTimer> {
    let mut timers = vec![c.register(who).unwrap()];
    let path: &[ClientState] = match target {
        ClientState::Waiting => &[],
        ClientState::Selected => &[ClientState::Selected],
        ClientState::Done => &[ClientState::Selected, ClientState::Done],
        ClientState::Ignored => &[ClientState::Selected, ClientState::Ignored],
        ClientState::DoneAndInactive => &[
            ClientState::Selected,
            ClientState::Done,
            ClientState::DoneAndInactive,
        ],
        ClientState::Unknown => {
            c.remove(&who);
            &[]
        }
    };
    for s in path {
        if let Some(t) = c.set_state(who, *s).unwrap() {
            timers.push(t);
        }
    }
    assert_eq!(c.get_state(&who), target);
    timers
}

fn in_graph(a: ClientState, b: ClientState) -> bool {
    matches!(
        (a, b),
        (ClientState::Waiting, ClientState::Selected)
            | (ClientState::Selected, ClientState::Done)
            | (ClientState::Selected, ClientState::Ignored)
            | (ClientState::Done, ClientState::Ignored)
            | (ClientState::Done, ClientState::DoneAndInactive)
            | (ClientState::DoneAndInactive, ClientState::Ignored)
    )
}

#[test]
fn transition_table_matches_the_graph() {
    for a in ALL_STATES {
        for b in ALL_STATES {
            assert_eq!(is_valid_transition(a, b), in_graph(a, b), "{:?} -> {:?}", a, b);
        }
    }
}

#[test]
fn set_state_accepts_only_graph_edges() {
    for a in ALL_STATES {
        for b in ALL_STATES {
            let mut c = store();
            let who = id(7);
            let _timers = drive(&mut c, who, a);
            let result = c.set_state(who, b);
            if in_graph(a, b) {
                let timer = result.unwrap();
                assert_eq!(c.get_state(&who), b);
                assert_eq!(timer.is_some(), a == ClientState::DoneAndInactive);
            } else {
                assert_eq!(result.err(), Some(InvalidClientStateError(a, b)));
                assert_eq!(c.get_state(&who), a);
            }
        }
    }
}

#[test]
fn partitions_stay_disjoint_over_a_sequence_of_operations() {
    let mut c = store();
    let ids: Vec<ClientId> = (1..=6).map(id).collect();
    let mut timers = Vec::new();
    for i in &ids {
        timers.push(c.register(*i).unwrap());
    }
    assert!(c.register(ids[0]).is_err());
    c.set_state(ids[0], ClientState::Selected).unwrap();
    c.set_state(ids[1], ClientState::Selected).unwrap();
    c.set_state(ids[1], ClientState::Done).unwrap();
    c.set_state(ids[2], ClientState::Selected).unwrap();
    c.set_state(ids[2], ClientState::Ignored).unwrap();
    c.set_state(ids[1], ClientState::DoneAndInactive).unwrap();
    assert!(c.set_state(ids[3], ClientState::Done).is_err());
    c.remove(&ids[4]);
    let waiting = c.waiting_ids();
    let selected = c.selected_ids();
    for w in &waiting {
        assert!(!selected.contains(w));
        assert_eq!(c.get_state(w), ClientState::Waiting);
    }
    let mut w: Vec<u128> = waiting.iter().map(|x| x.as_u128()).collect();
    w.sort();
    assert_eq!(w, vec![4, 6]);
    assert_eq!(selected, vec![ids[0]]);
    assert_eq!(c.get_state(&ids[1]), ClientState::DoneAndInactive);
    assert_eq!(c.get_state(&ids[2]), ClientState::Ignored);
    assert_eq!(c.get_state(&ids[4]), ClientState::Unknown);
    assert!(c.is_inactive(&ids[1]));
    assert!(!c.is_active(&ids[1]));
    assert!(c.contains(&ids[1]));
    assert!(c.is_active(&ids[2]));
    assert!(!c.contains(&ids[4]));
}

#[test]
fn registration_only_of_unknown_clients() {
    let mut c = store();
    let a = id(1);
    let timer = c.register(a).unwrap();
    assert_eq!(timer.id, a);
    assert_eq!(timer.timeout_secs, HEARTBEAT_TIMEOUT_SECS);
    assert_eq!(c.get_state(&a), ClientState::Waiting);
    assert_eq!(
        c.register(a).err(),
        Some(InvalidClientStateError(ClientState::Waiting, ClientState::Waiting))
    );
}

#[test]
fn heartbeat_flood_pushes_back() {
    let mut c = store();
    let a = id(1);
    let _timer = c.register(a).unwrap();
    let mut results = Vec::new();
    for _ in 0..100 {
        results.push(c.reset_heartbeat(&a, Duration::from_secs(HEARTBEAT_TIMEOUT_SECS)));
    }
    for r in &results[..10] {
        assert_eq!(*r, Ok(()));
    }
    for r in &results[10..] {
        assert_eq!(*r, Err(HeartBeatResetError::BackPressure));
    }
    assert_eq!(c.get_state(&a), ClientState::Waiting);
}

#[test]
fn heartbeat_of_unknown_or_inactive_client_is_not_found() {
    let mut c = store();
    assert_eq!(
        c.reset_heartbeat(&id(9), Duration::from_secs(5)),
        Err(HeartBeatResetError::ClientNotFound)
    );
    let _timers = drive(&mut c, id(2), ClientState::DoneAndInactive);
    assert_eq!(
        c.reset_heartbeat(&id(2), Duration::from_secs(5)),
        Err(HeartBeatResetError::ClientNotFound)
    );
}

#[test]
fn heartbeat_after_timer_dropped_is_expired() {
    let mut c = store();
    let a = id(1);
    let timer = c.register(a).unwrap();
    drop(timer);
    assert_eq!(c.reset_heartbeat(&a, Duration::from_secs(5)), Err(HeartBeatResetError::Expired));
}

#[test]
fn reset_delivery_maps_to_errors() {
    assert_eq!(reset_result(ResetDelivery::Queued), Ok(()));
    assert_eq!(
        reset_result(ResetDelivery::Full),
        Err(HeartBeatResetError::BackPressure)
    );
    assert_eq!(
        reset_result(ResetDelivery::Closed),
        Err(HeartBeatResetError::Expired)
    );
    assert_eq!(HeartBeatResetError::BackPressure.message(), "too many pending resets");
    assert_eq!(HeartBeatResetError::ClientNotFound.message(), "client not found");
    assert_eq!(
        HeartBeatResetError::Expired.message(),
        "the heartbeat timer already expired"
    );
}

#[test]
fn round_reset_sends_everyone_back_to_waiting() {
    let mut c = store();
    let mut timers = Vec::new();
    timers.extend(drive(&mut c, id(1), ClientState::Waiting));
    timers.extend(drive(&mut c, id(2), ClientState::Selected));
    timers.extend(drive(&mut c, id(3), ClientState::Done));
    timers.extend(drive(&mut c, id(4), ClientState::Ignored));
    timers.extend(drive(&mut c, id(5), ClientState::DoneAndInactive));
    c.reset_round();
    for n in 1..=4 {
        assert_eq!(c.get_state(&id(n)), ClientState::Waiting);
    }
    assert_eq!(c.get_state(&id(5)), ClientState::Unknown);
    assert_eq!(c.waiting_ids().len(), 4);
    assert!(c.selected_ids().is_empty());
}

#[test]
fn inactive_client_comes_back_with_a_new_timer() {
    let mut c = store();
    let a = id(3);
    let _timers = drive(&mut c, a, ClientState::DoneAndInactive);
    let timer = c.set_state(a, ClientState::Ignored).unwrap().unwrap();
    assert_eq!(timer.id, a);
    assert_eq!(c.get_state(&a), ClientState::Ignored);
    assert_eq!(c.reset_heartbeat(&a, Duration::from_secs(5)), Ok(()));
}

#[test]
fn expired_timers_report_on_the_store_channel() {
    let (mut c, mut expirations) = Clients::new();
    let timer = c.register(id(4)).unwrap();
    timer.expirations.send(timer.id).unwrap();
    assert_eq!(expirations.try_recv().unwrap(), id(4));
    assert!(expirations.try_recv().is_err());
}

#[test]
fn random_identifiers_differ() {
    let a = ClientId::new();
    let b = ClientId::new();
    assert_ne!(a, b);
    for c in [a, b] {
        assert_eq!((c.as_u128() >> 76) & 0xf, 4);
        assert_eq!((c.as_u128() >> 62) & 0x3, 2);
    }
    assert_eq!(ClientId::from_u128(42).as_u128(), 42);
}

#[test]
fn countdown_expires_after_silence() {
    let mut t = Countdown::start(0, 4_000);
    assert_eq!(t.deadline, 4_000);
    assert_eq!(t.on_event(TimerEvent::Tick { now: 3_999 }), TimerAction::WaitUntil(4_000));
    assert_eq!(
        t.on_event(TimerEvent::Reset { now: 3_000, timeout: 10_000 }),
        TimerAction::WaitUntil(13_000)
    );
    assert_eq!(t.on_event(TimerEvent::Tick { now: 12_000 }), TimerAction::WaitUntil(13_000));
    assert_eq!(t.on_event(TimerEvent::Tick { now: 13_000 }), TimerAction::Expire);
    assert_eq!(
        t.on_event(TimerEvent::Reset { now: 13_500, timeout: 10_000 }),
        TimerAction::Expire
    );
    assert_eq!(t.deadline, 13_000);
    assert_eq!(t.on_event(TimerEvent::InboxClosed), TimerAction::Stop);
    assert_eq!(Countdown::start(u64::MAX - 1, 10).deadline, u64::MAX);
}
