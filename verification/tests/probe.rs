use sonar::probe::{HttpRequestTask, TickAction};

#[test]
fn a_fresh_worker_has_nothing_under_way() {
    let worker = HttpRequestTask::new(2);
    assert_eq!(worker.in_flight(), 0);
    assert!(!worker.is_cancelled());
}

#[test]
fn a_tick_starts_a_request_while_there_is_room() {
    let mut worker = HttpRequestTask::new(2);
    assert_eq!(worker.tick(), TickAction::Spawn);
    assert_eq!(worker.in_flight(), 1);
    assert_eq!(worker.tick(), TickAction::Spawn);
    assert_eq!(worker.in_flight(), 2);
}

#[test]
fn a_tick_without_room_is_skipped_and_warned_of_once() {
    let mut worker = HttpRequestTask::new(1);
    assert_eq!(worker.tick(), TickAction::Spawn);
    assert_eq!(worker.tick(), TickAction::Skip { warn: true });
    assert_eq!(worker.tick(), TickAction::Skip { warn: false });
    assert_eq!(worker.tick(), TickAction::Skip { warn: false });
    assert_eq!(worker.in_flight(), 1);
    worker.done(true);
    assert_eq!(worker.in_flight(), 0);
    assert_eq!(worker.tick(), TickAction::Spawn);
    assert_eq!(worker.tick(), TickAction::Skip { warn: true });
}

#[test]
fn never_more_under_way_than_allowed() {
    let mut worker = HttpRequestTask::new(3);
    let mut spawned = 0u32;
    let mut ended = 0u32;
    for round in 0..200u32 {
        if worker.tick() == TickAction::Spawn {
            spawned += 1;
        }
        assert!(worker.in_flight() <= 3);
        if round % 5 == 0 && worker.in_flight() > 0 {
            worker.done(round % 2 == 0);
            ended += 1;
        }
        assert_eq!(worker.in_flight(), spawned - ended);
    }
    assert!(spawned > 3);
}

#[test]
fn a_request_takes_three_intervals() {
    // One request at a time, each taking three intervals: of ten ticks,
    // the first, fourth, seventh and tenth start a request.
    let mut worker = HttpRequestTask::new(1);
    let mut actions = Vec::new();
    let mut started_at: Option<u32> = None;
    for tick in 0..10u32 {
        if let Some(start) = started_at {
            if tick - start >= 3 {
                worker.done(true);
                started_at = None;
            }
        }
        let action = worker.tick();
        if action == TickAction::Spawn {
            started_at = Some(tick);
        }
        actions.push(action);
    }
    assert_eq!(
        actions,
        vec![
            TickAction::Spawn,
            TickAction::Skip { warn: true },
            TickAction::Skip { warn: false },
            TickAction::Spawn,
            TickAction::Skip { warn: true },
            TickAction::Skip { warn: false },
            TickAction::Spawn,
            TickAction::Skip { warn: true },
            TickAction::Skip { warn: false },
            TickAction::Spawn,
        ]
    );
}

#[test]
fn enough_room_means_no_skipped_tick() {
    // A request takes 250 ms, a tick comes every 100 ms: three at once
    // are enough.
    let mut worker = HttpRequestTask::new(3);
    let mut ends: Vec<u64> = Vec::new();
    for tick in 0..50u64 {
        let now = tick * 100;
        let before = ends.len();
        ends.retain(|end| *end > now);
        for _ in ends.len()..before {
            worker.done(true);
        }
        assert_eq!(worker.tick(), TickAction::Spawn);
        ends.push(now + 250);
    }
}

#[test]
fn a_worker_without_room_starts_nothing() {
    let mut worker = HttpRequestTask::new(0);
    assert_eq!(worker.tick(), TickAction::Skip { warn: true });
    assert_eq!(worker.in_flight(), 0);
}

#[test]
fn a_cancelled_worker_stops_ticking() {
    let mut worker = HttpRequestTask::new(2);
    assert_eq!(worker.tick(), TickAction::Spawn);
    worker.cancel();
    assert!(worker.is_cancelled());
    assert_eq!(worker.tick(), TickAction::Stop);
    assert_eq!(worker.in_flight(), 1);
    worker.done(false);
    assert_eq!(worker.in_flight(), 0);
    assert_eq!(worker.tick(), TickAction::Stop);
}
