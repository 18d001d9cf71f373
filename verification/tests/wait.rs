use todo_cli::auth::AuthState;
use todo_cli::error::Error;
use todo_cli::wait::{poll, Wait, Waiter, Watch, AUTH_TIMEOUT_MS, POLL_INTERVAL_MS};

#[test]
fn present_credential_ends_the_wait() {
    assert_eq!(poll(true, 0, 1000, 25), Wait::Ready);
    assert_eq!(poll(true, 1000, 1000, 25), Wait::Ready);
    assert_eq!(poll(true, 5000, 1000, 25), Wait::Ready);
}

#[test]
fn wait_sleeps_for_the_interval() {
    assert_eq!(poll(false, 0, 1000, 25), Wait::Sleep(25));
    assert_eq!(poll(false, 975, 1000, 25), Wait::Sleep(25));
}

#[test]
fn last_sleep_stops_at_the_limit() {
    assert_eq!(poll(false, 990, 1000, 25), Wait::Sleep(10));
    assert_eq!(poll(false, 999, 1000, 25), Wait::Sleep(1));
}

#[test]
fn wait_times_out_at_the_limit() {
    assert_eq!(poll(false, 1000, 1000, 25), Wait::TimedOut);
    assert_eq!(poll(false, 1001, 1000, 25), Wait::TimedOut);
    assert_eq!(poll(false, 0, 0, 25), Wait::TimedOut);
}

#[test]
fn zero_interval_still_makes_progress() {
    assert_eq!(poll(false, 0, 1000, 0), Wait::Sleep(1));
}

#[test]
fn standard_wait_is_sixty_seconds_in_short_steps() {
    assert_eq!(AUTH_TIMEOUT_MS, 60_000);
    assert_eq!(POLL_INTERVAL_MS, 25);
    let mut waiter = Waiter::standard();
    let mut looks = 0u32;
    loop {
        match waiter.look(false) {
            Wait::Sleep(pause) => {
                assert_eq!(pause, 25);
                looks += 1;
            }
            Wait::TimedOut => break,
            Wait::Ready => panic!("nothing was there"),
        }
    }
    assert_eq!(looks, 2400);
    assert_eq!(waiter.waited(), 60_000);
    assert_eq!(waiter.look(false), Wait::TimedOut);
    assert_eq!(waiter.look(true), Wait::Ready);
}

#[test]
fn waiter_counts_what_it_slept() {
    let mut waiter = Waiter::new(60, 25);
    assert_eq!(waiter.look(false), Wait::Sleep(25));
    assert_eq!(waiter.waited(), 25);
    assert_eq!(waiter.look(false), Wait::Sleep(25));
    assert_eq!(waiter.look(false), Wait::Sleep(10));
    assert_eq!(waiter.waited(), 60);
    assert_eq!(waiter.look(false), Wait::TimedOut);
    assert_eq!(waiter.waited(), 60);
}

#[test]
fn failed_flow_ends_the_wait_with_its_error() {
    let mut waiter = Waiter::new(1000, 25);
    let failed = AuthState::Failed(Error::AuthorizationFailed);
    assert_eq!(waiter.watch(failed, false), Watch::GiveUp(Error::AuthorizationFailed));
    assert_eq!(waiter.watch(failed, true), Watch::GiveUp(Error::AuthorizationFailed));
    assert_eq!(
        waiter.watch(AuthState::Failed(Error::StoreFailed), false),
        Watch::GiveUp(Error::StoreFailed)
    );
    assert_eq!(waiter.waited(), 0);
}

#[test]
fn watch_waits_while_the_flow_runs_and_ends_with_the_credential() {
    let mut waiter = Waiter::new(60, 25);
    assert_eq!(waiter.watch(AuthState::AwaitingCode, false), Watch::Sleep(25));
    assert_eq!(waiter.watch(AuthState::Exchanging, false), Watch::Sleep(25));
    assert_eq!(waiter.watch(AuthState::Saving, false), Watch::Sleep(10));
    assert_eq!(waiter.waited(), 60);
    assert_eq!(waiter.watch(AuthState::Saving, true), Watch::Ready);
    assert_eq!(waiter.watch(AuthState::Authenticated, true), Watch::Ready);
}

#[test]
fn watch_gives_up_at_the_limit() {
    let mut waiter = Waiter::new(25, 25);
    assert_eq!(waiter.watch(AuthState::AwaitingCode, false), Watch::Sleep(25));
    assert_eq!(
        waiter.watch(AuthState::AwaitingCode, false),
        Watch::GiveUp(Error::AuthenticationTimedOut)
    );
    assert_eq!(waiter.watch(AuthState::AwaitingCode, true), Watch::Ready);
}
