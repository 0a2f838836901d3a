use beul::CondvarWake;
use std::sync::Arc;
use std::task::Wake;
use std::task::Waker;

#[test]
fn wakeup_before_park_is_not_lost() {
    let signal = CondvarWake::new();
    signal.request_wakeup();
    signal.park();
}

#[test]
fn wakeups_before_one_park_count_as_one() {
    let signal = CondvarWake::new();
    signal.request_wakeup();
    signal.request_wakeup();
    signal.request_wakeup();
    signal.park();
    // The flag is lowered again: the next park needs a wakeup of its own.
    signal.request_wakeup();
    signal.park();
}

#[test]
fn default_signal_is_not_raised_and_can_be_raised() {
    let signal = CondvarWake::default();
    signal.request_wakeup();
    signal.park();
}

#[test]
fn wake_by_ref_and_wake_raise_the_signal() {
    let signal = Arc::new(CondvarWake::new());
    signal.wake_by_ref();
    signal.park();
    Arc::clone(&signal).wake();
    signal.park();
}

#[test]
fn waker_made_from_the_signal_raises_it() {
    let signal = Arc::new(CondvarWake::new());
    let waker = Waker::from(Arc::clone(&signal));
    waker.wake_by_ref();
    signal.park();
    let clone = waker.clone();
    drop(waker);
    clone.wake();
    signal.park();
}

#[test]
fn raised_flag_is_taken_without_a_wait() {
    let signal = CondvarWake::new();
    signal.request_wakeup();
    assert_eq!(signal.take_wakeup(), (true, 0));
}

#[test]
fn requests_before_one_park_are_taken_without_a_wait() {
    let signal = CondvarWake::new();
    signal.request_wakeup();
    signal.request_wakeup();
    signal.request_wakeup();
    assert_eq!(signal.take_wakeup(), (true, 0));
    signal.request_wakeup();
    assert_eq!(signal.take_wakeup(), (true, 0));
}
