//! The poll loop.

use crate::protocol::event_of;
use crate::protocol::Event;
use crate::protocol::Phase;
use crate::protocol::Progress;
use crate::protocol::Run;
use crate::signal::CondvarWake;
use crate::tasks::pin_boxed;
use crate::tasks::poll_once;
use crate::tasks::signal_behind;
use crate::tasks::waker_in;
use crate::tasks::waker_of;
use std::future::Future;
use std::pin::Pin;
use std::sync::Arc;
use std::task::Context;
use std::task::Waker;
use vstd::future::FutureAdditionalSpecFns;
use vstd::prelude::*;

verus! {

/// One more event at the end of a sequence is one more step at the end of the run.
proof fn lemma_run_push(run: Run, events: Seq<Event>, event: Event)
    ensures
        run.run(events.push(event)) == run.run(events).step(event),
{
    assert(events.push(event).drop_last() == events);
}

/// A poll loop: a wake signal, and the one waker that is handed to the futures
/// it drives. The waker raises the flag of this signal and of no other.
pub struct PollLoop {
    signal: Arc<CondvarWake>,
    waker: Waker,
}

impl PollLoop {
    #[verifier::type_invariant]
    spec fn waker_is_on_signal(self) -> bool {
        signal_behind(self.waker) == self.signal
    }

    /// The signal that the loop parks on.
    pub closed spec fn signal(self) -> CondvarWake {
        *self.signal
    }

    /// A loop with a signal of its own, which nobody has raised.
    pub fn new() -> (made: PollLoop)
        ensures
            !made.signal().initial().raised,
    {
        let signal = Arc::new(CondvarWake::default());
        let waker = waker_of(Arc::clone(&signal));
        PollLoop { signal, waker }
    }

    /// Parks the calling thread on the signal of the loop, as
    /// [`CondvarWake::take_wakeup`] does: for a run that ended not woken, before
    /// the next.
    pub fn park(&self) -> (out: (bool, u64))
        ensures
            out.0 || out.1 == u64::MAX,
    {
        self.signal.take_wakeup()
    }

    /// Polls `future` on the calling thread until it is ready, at most `rounds`
    /// times.
    ///
    /// Every poll gets a context of its own around the waker of the loop. After
    /// each "not yet" the thread parks on the signal of the loop; it polls again
    /// once it has taken a wakeup, and stops where the waits of a park were spent
    /// with none to take.
    ///
    /// `Ok` holds the output of the future. `Err` hands the future back, not
    /// ready; a further call goes on with it. With either comes the progress of
    /// the loop, which is at a run of the protocol: completed for `Ok`, and for
    /// `Err` parked, or not begun where `rounds` is 0.
    ///
    /// Last comes whether the thread is woken: `false` means that the run ended
    /// in a park that took no wakeup. The future is handed back only where the
    /// rounds were spent or that park took none.
    pub fn run<T, F: Future<Output = T>>(&self, future: Pin<Box<F>>, rounds: u64) -> (outcome: (
        Result<T, Pin<Box<F>>>,
        Progress,
        bool,
    ))
        ensures
            outcome.0 matches Ok(value) ==> value == future@,
            outcome.0 matches Err(pending) ==> pending@ == future@,
            rounds == 0 ==> outcome.0 == Err::<T, Pin<Box<F>>>(future),
            exists|events: Seq<Event>| #[trigger] outcome.1.at(Run::start().run(events)),
            outcome.0 is Ok <==> outcome.1.phase is Completed,
            outcome.0 is Err ==> outcome.1.phase is Parked || (outcome.1.phase is Running && rounds
                == 0),
            outcome.0 is Ok ==> outcome.1.polls == outcome.1.parks + 1,
            outcome.0 is Err ==> outcome.1.polls == outcome.1.parks,
            outcome.1.polls <= rounds,
            outcome.0 is Err ==> rounds == 0 || outcome.1.polls == rounds || !outcome.2,
            outcome.0 is Ok || rounds == 0 ==> outcome.2,
    {
        proof {
            use_type_invariant(self);
        }
        let mut task = future;
        let mut progress = Progress::new();
        let ghost mut events: Seq<Event> = Seq::empty();
        if rounds == 0 {
            assert(progress.at(Run::start().run(events)));
            return (Err(task), progress, true);
        }
        assert(progress.at(Run::start().run(events)));
        progress.step(Event::Start, false);
        proof {
            lemma_run_push(Run::start(), events, Event::Start);
            events = events.push(Event::Start);
        }
        loop
            invariant
                signal_behind(self.waker) == self.signal,
                task@ == future@,
                rounds > 0,
                progress.at(Run::start().run(events)),
                !Run::start().run(events).flag.raised,
                progress.phase is Polling,
                progress.polls <= rounds,
                progress.polls == progress.parks + 1,
            decreases rounds - progress.polls,
        {
            let mut context = Context::from_waker(&self.waker);
            // The future is handed a waker on the signal that the loop parks on.
            assert(signal_behind(waker_in(context)) == self.signal);
            let answer = poll_once(task, &mut context);
            progress.answered(&answer);
            proof {
                lemma_run_push(Run::start(), events, event_of(answer));
                events = events.push(event_of(answer));
            }
            match answer {
                Ok(value) => {
                    return (Ok(value), progress, true);
                },
                Err(pending) => {
                    task = pending;
                    let (taken, _) = self.signal.take_wakeup();
                    if progress.polls == rounds {
                        return (Err(task), progress, taken);
                    }
                    proof {
                        // A wakeup that was taken is one that was asked for.
                        if taken {
                            lemma_run_push(Run::start(), events, Event::Wake);
                            events = events.push(Event::Wake);
                        }
                    }
                    assert(progress.at(Run::start().run(events)));
                    progress.step(Event::Resume, taken);
                    match progress.phase {
                        Phase::Polling => {
                            proof {
                                lemma_run_push(Run::start(), events, Event::Resume);
                                events = events.push(Event::Resume);
                            }
                        },
                        _ => {
                            return (Err(task), progress, taken);
                        },
                    }
                },
            }
        }
    }
}

/// Polls `future` on the calling thread until it is ready, at most `rounds`
/// times, in a loop with a signal of its own: [`PollLoop::run`] on a new
/// [`PollLoop`].
pub fn poll<T, F: Future<Output = T>>(future: Pin<Box<F>>, rounds: u64) -> (outcome: (
    Result<T, Pin<Box<F>>>,
    Progress,
    bool,
))
    ensures
        outcome.0 matches Ok(value) ==> value == future@,
        outcome.0 matches Err(pending) ==> pending@ == future@,
        rounds == 0 ==> outcome.0 == Err::<T, Pin<Box<F>>>(future),
        exists|events: Seq<Event>| #[trigger] outcome.1.at(Run::start().run(events)),
        outcome.0 is Ok <==> outcome.1.phase is Completed,
        outcome.0 is Err ==> outcome.1.phase is Parked || (outcome.1.phase is Running && rounds
            == 0),
        outcome.0 is Ok ==> outcome.1.polls == outcome.1.parks + 1,
        outcome.0 is Err ==> outcome.1.polls == outcome.1.parks,
        outcome.1.polls <= rounds,
        outcome.0 is Err ==> rounds == 0 || outcome.1.polls == rounds || !outcome.2,
        outcome.0 is Ok || rounds == 0 ==> outcome.2,
{
    PollLoop::new().run(future, rounds)
}

/// Blocks on `future`: polls it on the current thread until it is ready and
/// returns its output.
///
/// `None` means that the future was not ready after `u64::MAX` polls, or that
/// the waits of a park were spent with no wakeup to take.
pub fn execute<T>(future: impl Future<Output = T>) -> (output: Option<T>)
    ensures
        output matches Some(value) ==> value == future@,
{
    poll(pin_boxed(future), u64::MAX).0.ok()
}

} // verus!
