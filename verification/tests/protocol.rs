use beul::Event;
use beul::Phase;
use beul::Progress;

fn after(events: &[(Event, bool)]) -> Progress {
    let mut progress = Progress::new();
    for (event, taken) in events {
        progress.step(*event, *taken);
    }
    progress
}

#[test]
fn new_progress_has_not_polled() {
    assert_eq!(Progress::new(), Progress { phase: Phase::Running, polls: 0, parks: 0 });
}

#[test]
fn ready_at_once_is_one_poll_and_no_park() {
    let end = after(&[(Event::Start, false), (Event::Ready, false)]);
    assert_eq!(end, Progress { phase: Phase::Completed, polls: 1, parks: 0 });
}

#[test]
fn each_pending_is_one_park_and_one_more_poll() {
    let mut events = vec![(Event::Start, false)];
    for _ in 0..4 {
        events.push((Event::Pending, false));
        events.push((Event::Wake, false));
        events.push((Event::Resume, true));
    }
    events.push((Event::Ready, false));
    assert_eq!(after(&events), Progress { phase: Phase::Completed, polls: 5, parks: 4 });
}

#[test]
fn resume_without_a_wakeup_stays_parked() {
    let parked = after(&[(Event::Start, false), (Event::Pending, false)]);
    assert_eq!(parked, Progress { phase: Phase::Parked, polls: 1, parks: 1 });
    let mut still = parked;
    still.step(Event::Resume, false);
    assert_eq!(still, parked);
    still.step(Event::Resume, true);
    assert_eq!(still, Progress { phase: Phase::Polling, polls: 2, parks: 1 });
}

#[test]
fn wake_changes_nothing_that_the_loop_keeps() {
    for events in [
        vec![],
        vec![(Event::Start, false)],
        vec![(Event::Start, false), (Event::Pending, false)],
        vec![(Event::Start, false), (Event::Ready, false)],
    ] {
        let before = after(&events);
        let mut woken = before;
        woken.step(Event::Wake, false);
        woken.step(Event::Wake, true);
        assert_eq!(woken, before);
    }
}

#[test]
fn events_out_of_turn_change_nothing() {
    let fresh = Progress::new();
    for event in [Event::Ready, Event::Pending, Event::Resume] {
        let mut same = fresh;
        same.step(event, true);
        assert_eq!(same, fresh);
    }
    let polling = after(&[(Event::Start, false)]);
    for event in [Event::Start, Event::Resume] {
        let mut same = polling;
        same.step(event, true);
        assert_eq!(same, polling);
    }
}

#[test]
fn completed_is_final() {
    let done = after(&[(Event::Start, false), (Event::Ready, false)]);
    for event in [Event::Start, Event::Wake, Event::Ready, Event::Pending, Event::Resume] {
        let mut same = done;
        same.step(event, true);
        assert_eq!(same, done);
    }
}

#[test]
fn answer_steps_by_ready_or_pending() {
    let mut progress = after(&[(Event::Start, false)]);
    let pending: Result<u8, &str> = Err("rest");
    progress.answered(&pending);
    assert_eq!(progress, Progress { phase: Phase::Parked, polls: 1, parks: 1 });
    progress.step(Event::Resume, true);
    let ready: Result<u8, &str> = Ok(3);
    progress.answered(&ready);
    assert_eq!(progress, Progress { phase: Phase::Completed, polls: 2, parks: 1 });
}
