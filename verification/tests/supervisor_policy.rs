use breeze_wh::constants::{BACKOFF_INITIAL_MS, BACKOFF_MAX_MS, BACKOFF_RESET_AFTER_MS};
use breeze_wh::supervisor::{Supervisor, TickAction};

#[test]
fn new_supervisor_has_no_helper() {
    let mut s = Supervisor::new();
    assert!(!s.helper_running());
    assert!(!s.helper_wanted());
    assert_eq!(s.backoff_ms(), BACKOFF_INITIAL_MS);
    assert_eq!(s.tick(false, 100_000), TickAction::Continue);
    assert!(!s.helper_running());
}

#[test]
fn live_helper_is_kept() {
    let mut s = Supervisor::new();
    s.start(1000);
    assert!(s.helper_running());
    assert_eq!(s.tick(true, 3000), TickAction::Continue);
    assert!(s.helper_running());
}

#[test]
fn crash_within_backoff_waits_then_restarts() {
    let mut s = Supervisor::new();
    s.start(1000);
    // dies 1.5 s after launch: the 2 s delay has not passed
    assert_eq!(s.tick(false, 2500), TickAction::Continue);
    assert!(!s.helper_running());
    assert!(s.helper_wanted());
    // still within the delay
    assert_eq!(s.tick(false, 2999), TickAction::Continue);
    // the delay has passed: restart
    assert_eq!(s.tick(false, 3000), TickAction::Restart);
    s.finish_restart(true, 3000);
    assert!(s.helper_running());
    assert_eq!(s.backoff_ms(), 4000);
}

#[test]
fn crash_after_backoff_restarts_and_doubles() {
    let mut s = Supervisor::new();
    s.start(0);
    assert_eq!(s.tick(false, 2000), TickAction::Restart);
    assert!(!s.helper_running());
    s.finish_restart(true, 2000);
    assert!(s.helper_running());
    assert_eq!(s.backoff_ms(), 4000);
}

#[test]
fn failed_restart_still_doubles() {
    let mut s = Supervisor::new();
    s.start(0);
    assert_eq!(s.tick(false, 5000), TickAction::Restart);
    s.finish_restart(false, 5000);
    assert!(!s.helper_running());
    assert!(s.helper_wanted());
    assert_eq!(s.backoff_ms(), 4000);
    // retried once the doubled delay has passed since the failed attempt
    assert_eq!(s.tick(false, 8999), TickAction::Continue);
    assert_eq!(s.tick(false, 9000), TickAction::Restart);
    s.finish_restart(false, 9000);
    assert_eq!(s.backoff_ms(), 8000);
    assert_eq!(s.tick(false, 17_000), TickAction::Restart);
}

#[test]
fn backoff_grows_exponentially_and_caps() {
    let mut s = Supervisor::new();
    let mut now: u64 = 0;
    s.start(now);
    let expected = [4000u64, 8000, 16000, 32000, 60000, 60000, 60000];
    for want in expected {
        now += 100_000;
        assert_eq!(s.tick(false, now), TickAction::Restart);
        s.finish_restart(true, now);
        assert_eq!(s.backoff_ms(), want);
    }
    assert_eq!(s.backoff_ms(), BACKOFF_MAX_MS);
}

#[test]
fn stable_helper_resets_backoff() {
    let mut s = Supervisor::new();
    s.start(0);
    assert_eq!(s.tick(false, 2000), TickAction::Restart);
    s.finish_restart(true, 2000);
    assert_eq!(s.backoff_ms(), 4000);
    // not yet stable
    assert_eq!(s.tick(true, 2000 + BACKOFF_RESET_AFTER_MS - 1), TickAction::Continue);
    assert_eq!(s.backoff_ms(), 4000);
    // stable for 30 s
    assert_eq!(s.tick(true, 2000 + BACKOFF_RESET_AFTER_MS), TickAction::Continue);
    assert_eq!(s.backoff_ms(), BACKOFF_INITIAL_MS);
}

#[test]
fn stop_terminates_and_silences_ticks() {
    let mut s = Supervisor::new();
    s.start(0);
    assert!(s.stop());
    assert!(!s.helper_running());
    assert!(!s.helper_wanted());
    assert_eq!(s.tick(false, 1_000_000), TickAction::Continue);
    assert_eq!(s.tick(true, 2_000_000), TickAction::Continue);
    assert!(!s.stop());
}

#[test]
fn clock_going_back_counts_as_no_time() {
    let mut s = Supervisor::new();
    s.start(10_000);
    assert_eq!(s.tick(false, 5_000), TickAction::Continue);
}

#[test]
fn polling_every_two_seconds_restarts_a_crash() {
    // launched at 0 with a 2 s delay, dies at 500; ticks every 2 s from 1000
    let mut s = Supervisor::new();
    s.start(0);
    let mut now: u64 = 1000;
    let mut restarted_at = None;
    while now <= 10_000 {
        if s.tick(false, now) == TickAction::Restart {
            restarted_at = Some(now);
            break;
        }
        now += 2000;
    }
    assert_eq!(restarted_at, Some(3000));
}
