use periodic_timer::host::Host;
use periodic_timer::timer::{Allocation, HandleState, TimerError};

fn log_of(host: &Host) -> Vec<u64> {
    let mut log = Vec::new();
    let mut i = 0;
    while let Some(at) = host.emission(i) {
        log.push(at);
        i += 1;
    }
    log
}

#[test]
fn interval_five_gives_four_heartbeats_in_twenty_three_ticks() {
    let mut host = Host::new(1, 0);
    assert_eq!(host.load(5), Ok(()));
    for _ in 0..23 {
        host.tick();
    }
    assert_eq!(host.now(), 23);
    assert_eq!(host.emitted(), 4);
    assert_eq!(log_of(&host), vec![5, 10, 15, 20]);
    assert_eq!(host.handle_state(), Some(HandleState::Armed { expires: 25 }));
}

#[test]
fn run_is_the_same_as_ticking() {
    let mut stepped = Host::new(1, 0);
    let mut ran = Host::new(1, 0);
    assert_eq!(stepped.load(5), Ok(()));
    assert_eq!(ran.load(5), Ok(()));
    for _ in 0..23 {
        stepped.tick();
    }
    ran.run(23);
    assert_eq!(log_of(&ran), log_of(&stepped));
    assert_eq!(ran.now(), stepped.now());
    assert_eq!(ran.handle_state(), stepped.handle_state());
}

#[test]
fn teardown_right_after_start_emits_nothing() {
    let mut host = Host::new(1, 0);
    assert_eq!(host.load(5), Ok(()));
    assert_eq!(host.handle_state(), Some(HandleState::Armed { expires: 5 }));
    host.unload();
    assert_eq!(host.emitted(), 0);
    assert_eq!(host.handle_state(), None);
    assert_eq!(host.now(), 0);
}

#[test]
fn refused_allocation_fails_the_load_and_leaves_no_handle() {
    let mut host = Host::new(1, 0);
    host.set_allocation(Allocation::Refused);
    assert_eq!(host.load(5), Err(TimerError::OutOfMemory));
    assert_eq!(host.handle_state(), None);
    host.run(50);
    assert_eq!(host.emitted(), 0);
}

#[test]
fn load_succeeds_again_once_memory_is_back() {
    let mut host = Host::new(1, 0);
    host.set_allocation(Allocation::Refused);
    assert_eq!(host.load(5), Err(TimerError::OutOfMemory));
    host.set_allocation(Allocation::Granted);
    assert_eq!(host.load(5), Ok(()));
    assert_eq!(host.handle_state(), Some(HandleState::Armed { expires: 5 }));
}

#[test]
fn nothing_fires_after_unload_however_long_the_host_runs() {
    let mut host = Host::new(1, 0);
    assert_eq!(host.load(5), Ok(()));
    host.run(12);
    assert_eq!(log_of(&host), vec![5, 10]);
    host.unload();
    host.run(10_000);
    assert_eq!(log_of(&host), vec![5, 10]);
    assert_eq!(host.handle_state(), None);
    assert_eq!(host.now(), 10_012);
}

#[test]
fn unload_lets_the_callback_in_flight_finish_first() {
    let mut host = Host::new(1, 0);
    assert_eq!(host.load(5), Ok(()));
    host.run(4);
    host.advance();
    assert!(host.dispatch());
    assert_eq!(host.handle_state(), Some(HandleState::Executing));
    assert_eq!(host.emitted(), 0);
    host.unload();
    assert_eq!(log_of(&host), vec![5]);
    assert_eq!(host.handle_state(), None);
    assert!(!host.dispatch());
    assert!(!host.run_callback());
    host.run(100);
    assert_eq!(log_of(&host), vec![5]);
}

#[test]
fn a_running_callback_is_not_dispatched_again() {
    let mut host = Host::new(1, 0);
    assert_eq!(host.load(2), Ok(()));
    host.advance();
    host.advance();
    assert!(host.dispatch());
    for _ in 0..10 {
        host.advance();
        assert!(!host.dispatch());
        assert_eq!(host.handle_state(), Some(HandleState::Executing));
    }
    assert!(host.run_callback());
    assert!(!host.run_callback());
    assert_eq!(log_of(&host), vec![12]);
    assert_eq!(host.handle_state(), Some(HandleState::Armed { expires: 14 }));
}

#[test]
fn a_late_callback_rearms_from_the_tick_it_reads() {
    let mut host = Host::new(1, 0);
    assert_eq!(host.load(5), Ok(()));
    host.run(4);
    host.advance();
    assert!(host.dispatch());
    host.advance();
    host.advance();
    assert!(host.run_callback());
    assert_eq!(log_of(&host), vec![7]);
    assert_eq!(host.handle_state(), Some(HandleState::Armed { expires: 12 }));
    host.run(5);
    assert_eq!(log_of(&host), vec![7, 12]);
}

#[test]
fn the_handle_is_not_due_before_its_expiration() {
    let mut host = Host::new(1, 0);
    assert_eq!(host.load(5), Ok(()));
    for _ in 0..4 {
        host.advance();
        assert!(!host.dispatch());
        assert!(!host.run_callback());
    }
    assert_eq!(host.emitted(), 0);
    assert_eq!(host.handle_state(), Some(HandleState::Armed { expires: 5 }));
}

#[test]
fn the_recurrence_survives_the_wrap_of_the_counter() {
    let mut host = Host::new(1, u64::MAX - 2);
    assert_eq!(host.load(5), Ok(()));
    assert_eq!(host.handle_state(), Some(HandleState::Armed { expires: 2 }));
    host.run(11);
    assert_eq!(host.now(), 8);
    assert_eq!(log_of(&host), vec![2, 7]);
}

#[test]
fn the_interval_counts_in_ticks_of_the_host() {
    let mut host = Host::new(3, 100);
    assert_eq!(host.load(2), Ok(()));
    assert_eq!(host.handle_state(), Some(HandleState::Armed { expires: 106 }));
    host.run(13);
    assert_eq!(log_of(&host), vec![106, 112]);
}

#[test]
fn a_fresh_host_has_no_handle_and_an_empty_log() {
    let host = Host::new(250, 42);
    assert_eq!(host.now(), 42);
    assert_eq!(host.emitted(), 0);
    assert_eq!(host.emission(0), None);
    assert_eq!(host.handle_state(), None);
}

#[test]
fn emission_answers_by_index() {
    let mut host = Host::new(1, 0);
    assert_eq!(host.load(1), Ok(()));
    host.run(3);
    assert_eq!(host.emission(0), Some(1));
    assert_eq!(host.emission(2), Some(3));
    assert_eq!(host.emission(3), None);
}

#[test]
fn one_heartbeat_for_every_whole_interval_that_has_passed() {
    for ticks in 0..40u64 {
        let mut host = Host::new(1, 10);
        assert_eq!(host.load(3), Ok(()));
        host.run(ticks);
        let count = ticks / 3;
        let expected: Vec<u64> = (1..=count).map(|n| 10 + 3 * n).collect();
        assert_eq!(log_of(&host), expected);
        assert_eq!(host.now(), 10 + ticks);
        assert_eq!(
            host.handle_state(),
            Some(HandleState::Armed { expires: 10 + 3 * (count + 1) })
        );
    }
}

#[test]
fn an_idle_handle_is_never_fired() {
    let mut timer = match periodic_timer::timer::PeriodicTimer::new(1, 1, Allocation::Granted) {
        Ok(timer) => timer,
        Err(e) => panic!("allocation was granted, got {:?}", e),
    };
    for now in 0..100u64 {
        assert!(!timer.dispatch(now));
    }
    assert_eq!(timer.state(), HandleState::Idle);
}
