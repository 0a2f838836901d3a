//! The wakeup protocol between the polling thread and whoever wakes it, as a
//! state machine over plain values.
//!
//! A [`Run`] is one future being driven: the phase of the loop, the flag of its
//! wake signal, and what has been counted so far. An [`Event`] is one thing that
//! happens to it. The loop in [`crate::executor::PollLoop::run`] keeps a
//! [`Progress`], the part of the run that its thread can see, and steps it with
//! [`Progress::step`] by every event that it causes or sees: `Start` and `Resume`
//! where it polls, `Ready` and `Pending` as the future answers. `Wake` happens
//! on other threads, or inside a poll: [`crate::signal::CondvarWake`] holds the
//! flag, which [`Flag::raise`] raises for `Wake` and [`Flag::take`] lowers for
//! `Resume`. A thread that is parked with the flag down is asleep on the
//! condition variable.
//!
//! The laws below hold of every sequence of events, so of every way in which the
//! threads may interleave.

use crate::flag::Flag;
use vstd::prelude::*;

verus! {

/// Where the loop stands.
#[derive(Clone, Copy, Debug, PartialEq, Eq, Structural)]
pub enum Phase {
    /// The future has not been polled yet.
    Running,
    /// A poll of the future is in flight.
    Polling,
    /// The future answered "not yet" and the loop has gone to park.
    Parked,
    /// The future gave its value. Nothing leaves this phase.
    Completed,
}

/// One thing that happens to a run.
#[derive(Clone, Copy, Debug, PartialEq, Eq, Structural)]
pub enum Event {
    /// The loop polls the future for the first time.
    Start,
    /// Some thread asks for a wakeup.
    Wake,
    /// The future answers the poll in flight with its value.
    Ready,
    /// The future answers the poll in flight with "not yet".
    Pending,
    /// The parked loop takes the wakeup that is pending and polls again.
    Resume,
}

/// One future being driven.
pub struct Run {
    pub phase: Phase,
    /// The flag of the wake signal: raised while a wakeup is asked for and not yet
    /// taken.
    pub flag: Flag,
    /// How often the future has been polled.
    pub polls: nat,
    /// How often the loop has gone to park, once for each "not yet".
    pub parks: nat,
}

impl Run {
    /// A run before its first poll, on a signal that nobody has raised.
    pub open spec fn start() -> Self {
        Run { phase: Phase::Running, flag: Flag { raised: false }, polls: 0, parks: 0 }
    }

    /// The thread is parked and no wakeup is pending: it sleeps until the next `Wake`.
    pub open spec fn blocked(self) -> bool {
        self.phase is Parked && !self.flag.raised
    }

    /// The run after `event`. An event that cannot happen in the phase at hand
    /// leaves the run as it is.
    pub open spec fn step(self, event: Event) -> Self {
        match event {
            Event::Start => if self.phase is Running {
                Run { phase: Phase::Polling, polls: self.polls + 1, ..self }
            } else {
                self
            },
            Event::Wake => Run { flag: self.flag.after_raise(), ..self },
            Event::Ready => if self.phase is Polling {
                Run { phase: Phase::Completed, ..self }
            } else {
                self
            },
            Event::Pending => if self.phase is Polling {
                Run { phase: Phase::Parked, parks: self.parks + 1, ..self }
            } else {
                self
            },
            Event::Resume => if self.phase is Parked && self.flag.raised {
                Run {
                    phase: Phase::Polling,
                    flag: self.flag.after_take(),
                    polls: self.polls + 1,
                    ..self
                }
            } else {
                self
            },
        }
    }

    /// The run after `events`, in their order.
    pub open spec fn run(self, events: Seq<Event>) -> Self
        decreases events.len(),
    {
        if events.len() == 0 {
            self
        } else {
            self.run(events.drop_last()).step(events.last())
        }
    }

    /// What the counters of a run say in each phase.
    pub open spec fn counted(self) -> bool {
        match self.phase {
            Phase::Running => self.polls == 0 && self.parks == 0,
            Phase::Polling => self.polls == self.parks + 1,
            Phase::Parked => self.polls == self.parks && self.polls > 0,
            Phase::Completed => self.polls == self.parks + 1,
        }
    }
}

/// `n` requests for a wakeup in a row.
pub open spec fn wakes(n: nat) -> Seq<Event> {
    Seq::new(n, |i: int| Event::Wake)
}

/// How many of `events` are requests for a wakeup.
pub open spec fn requests(events: Seq<Event>) -> nat
    decreases events.len(),
{
    if events.len() == 0 {
        0
    } else if events.last() is Wake {
        requests(events.drop_last()) + 1
    } else {
        requests(events.drop_last())
    }
}

/// The event that an answer of the future is: `Ok` holds the value of a future
/// that is ready, `Err` what is left of one that is not.
pub open spec fn event_of<T, P>(answer: Result<T, P>) -> Event {
    match answer {
        Ok(_) => Event::Ready,
        Err(_) => Event::Pending,
    }
}

/// What the polling thread keeps of its run: the phase and the counters. The
/// flag is not among them: other threads raise it.
#[derive(Clone, Copy, Debug, PartialEq, Eq, Structural)]
pub struct Progress {
    pub phase: Phase,
    pub polls: u64,
    pub parks: u64,
}

impl Progress {
    /// The loop is at this point of `run`: phase and counters are those of the
    /// run.
    pub open spec fn at(self, run: Run) -> bool {
        &&& self.phase == run.phase
        &&& self.polls == run.polls
        &&& self.parks == run.parks
    }

    /// The progress of a loop that has not polled yet.
    pub fn new() -> (progress: Progress)
        ensures
            progress.at(Run::start()),
    {
        Progress { phase: Phase::Running, polls: 0, parks: 0 }
    }

    /// Steps the progress by `event`, as [`Run::step`] steps the run: whatever run
    /// the loop was at, it is at that run after `event`. For `Resume` the loop
    /// says in `taken` whether a wakeup was there to take, which is whether the
    /// flag was raised; for other events `taken` is not read.
    pub fn step(&mut self, event: Event, taken: bool)
        requires
            (event is Start && old(self).phase is Running) || (event is Resume && old(
                self,
            ).phase is Parked && taken) ==> old(self).polls < u64::MAX,
            event is Pending && old(self).phase is Polling ==> old(self).parks < u64::MAX,
        ensures
            forall|run: Run|
                #[trigger] old(self).at(run) && (event is Resume ==> run.flag.raised == taken)
                    ==> final(self).at(run.step(event)),
    {
        match event {
            Event::Start => match self.phase {
                Phase::Running => {
                    self.phase = Phase::Polling;
                    self.polls = self.polls + 1;
                },
                _ => {},
            },
            Event::Wake => {},
            Event::Ready => match self.phase {
                Phase::Polling => {
                    self.phase = Phase::Completed;
                },
                _ => {},
            },
            Event::Pending => match self.phase {
                Phase::Polling => {
                    self.phase = Phase::Parked;
                    self.parks = self.parks + 1;
                },
                _ => {},
            },
            Event::Resume => match self.phase {
                Phase::Parked => {
                    if taken {
                        self.phase = Phase::Polling;
                        self.polls = self.polls + 1;
                    }
                },
                _ => {},
            },
        }
    }

    /// Steps the progress by the answer of the future to the poll in flight:
    /// by `Ready` for a value, by `Pending` for a future that is not ready.
    pub fn answered<T, P>(&mut self, answer: &Result<T, P>)
        requires
            *answer is Err && old(self).phase is Polling ==> old(self).parks < u64::MAX,
        ensures
            forall|run: Run|
                #[trigger] old(self).at(run) ==> final(self).at(run.step(event_of(*answer))),
    {
        match answer {
            Ok(_) => self.step(Event::Ready, false),
            Err(_) => self.step(Event::Pending, false),
        }
    }
}

/// Requests for a wakeup change nothing but the flag, and the first of them
/// raises it for all.
proof fn lemma_wakes(run: Run, n: nat)
    ensures
        run.run(wakes(n)) == if n == 0 {
            run
        } else {
            Run { flag: Flag { raised: true }, ..run }
        },
    decreases n,
{
    if n > 0 {
        lemma_wakes(run, (n - 1) as nat);
        assert(wakes(n).drop_last() == wakes((n - 1) as nat));
    }
}

/// Every poll but the first has taken a request, and a raised flag is one more
/// request that no poll has taken yet.
proof fn lemma_polls_take_requests(events: Seq<Event>)
    ensures
        ({
            let run = Run::start().run(events);
            let taken = if run.polls == 0 {
                0
            } else {
                run.polls - 1
            };
            let kept: nat = if run.flag.raised {
                1
            } else {
                0
            };
            &&& taken + kept <= requests(events)
            &&& run.phase is Running <==> run.polls == 0
        }),
    decreases events.len(),
{
    if events.len() > 0 {
        lemma_polls_take_requests(events.drop_last());
    }
}

/// The counters of a run agree with its phase, whatever has happened: at
/// completion the future has been polled once more than it answered "not yet".
pub proof fn law_one_more_poll_than_pending_answers(events: Seq<Event>)
    ensures
        Run::start().run(events).counted(),
        Run::start().run(events).phase is Completed ==> Run::start().run(events).polls
            == Run::start().run(events).parks + 1,
    decreases events.len(),
{
    if events.len() > 0 {
        law_one_more_poll_than_pending_answers(events.drop_last());
    }
}

/// No poll without a request, but the first: the future is never polled more
/// often than wakeups were asked for, and once.
pub proof fn law_no_poll_without_request(events: Seq<Event>)
    ensures
        Run::start().run(events).polls <= requests(events) + 1,
{
    lemma_polls_take_requests(events);
}

/// Completion is final: no event changes the phase or the counters of a run
/// that has completed. A wakeup asked for afterwards does no harm.
pub proof fn law_completed_is_final(run: Run, events: Seq<Event>)
    requires
        run.phase is Completed,
    ensures
        run.run(events).phase is Completed,
        run.run(events).polls == run.polls,
        run.run(events).parks == run.parks,
    decreases events.len(),
{
    if events.len() > 0 {
        law_completed_is_final(run, events.drop_last());
    }
}

/// A future that is ready at its first poll: whatever wakeups are asked for
/// before and during that poll, the run completes after one poll and without
/// having gone to park.
pub proof fn law_ready_at_once(early: nat, during: nat)
    ensures
        ({
            let end = Run::start().run(wakes(early)).step(Event::Start).run(wakes(during)).step(
                Event::Ready,
            );
            &&& end.phase is Completed
            &&& end.polls == 1
            &&& end.parks == 0
        }),
{
    let first = Run::start().run(wakes(early));
    lemma_wakes(Run::start(), early);
    lemma_wakes(first.step(Event::Start), during);
}

/// Wakeups coalesce: any number of requests in a row leaves the run as one
/// request does. If they come while the future is polled, the park that follows
/// does not block, and the one after it does.
pub proof fn law_wakeups_coalesce(run: Run, n: nat)
    requires
        n >= 1,
    ensures
        run.run(wakes(n)) == run.step(Event::Wake),
        run.phase is Polling ==> ({
            let first = run.run(wakes(n)).step(Event::Pending);
            let second = first.step(Event::Resume).step(Event::Pending);
            !first.blocked() && second.blocked()
        }),
{
    lemma_wakes(run, n);
}

/// A wakeup lasts until it is taken: once the flag is raised, it stays raised
/// through every event but the `Resume` that takes it.
pub proof fn law_wakeup_lasts_until_taken(run: Run, events: Seq<Event>)
    requires
        run.flag.raised,
        forall|i: int| 0 <= i < events.len() ==> !(#[trigger] events[i] is Resume),
    ensures
        run.run(events).flag.raised,
    decreases events.len(),
{
    if events.len() > 0 {
        law_wakeup_lasts_until_taken(run, events.drop_last());
    }
}

/// No wakeup is missed: a request that comes just before the loop goes to park
/// and one that comes just after lead to the same run, in which the thread is
/// not blocked and polls again as soon as it takes the wakeup.
pub proof fn law_no_missed_wakeup(run: Run)
    requires
        run.phase is Polling,
    ensures
        run.step(Event::Wake).step(Event::Pending) == run.step(Event::Pending).step(Event::Wake),
        !run.step(Event::Wake).step(Event::Pending).blocked(),
        run.step(Event::Wake).step(Event::Pending).step(Event::Resume).phase is Polling,
{
}

/// A future may wake itself: if the wakeup is asked for during the poll that
/// answers "not yet", the thread is blocked at no point on the way to the next
/// poll, and the wakeup is spent on that one poll.
pub proof fn law_wake_during_poll(run: Run)
    requires
        run.phase is Polling,
    ensures
        ({
            let woken = run.step(Event::Wake);
            let parked = woken.step(Event::Pending);
            let next = parked.step(Event::Resume);
            &&& !woken.blocked()
            &&& !parked.blocked()
            &&& next.phase is Polling
            &&& next.polls == run.polls + 1
            &&& !next.flag.raised
        }),
{
}

} // verus!
