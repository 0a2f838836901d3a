//! Beul - It executes futures.
//!
//! [`execute`] runs a single future on the current thread: it polls the future
//! and, whenever the future is not ready, parks the thread on a [`CondvarWake`]
//! until a wakeup is asked for. No scheduler, no reactor, no task queue.
//!
//! Every loop of the library carries a termination measure, so each is given a
//! budget: [`poll`] takes the number of polls it may make and hands the future
//! back when they are spent, and [`execute`] runs [`poll`] with the largest
//! budget there is.
//!
//! The lock, the condition variable and the future itself belong to the standard
//! library. What is assumed of them stands in [`locking`] and [`tasks`]; the rest is
//! proved. The flag that the lock protects is a plain value, [`Flag`].
//! [`protocol`] states the wakeup protocol as a state machine over it and proves
//! its laws; the loop steps a [`Progress`] through that machine and hands it
//! back with the outcome.
//!
//! Beul is Dutch for executioner.

pub mod executor;
pub mod flag;
pub mod locking;
pub mod protocol;
pub mod signal;
pub mod tasks;

pub use executor::execute;
pub use executor::poll;
pub use executor::PollLoop;
pub use flag::Flag;
pub use protocol::Event;
pub use protocol::Phase;
pub use protocol::Progress;
pub use signal::CondvarWake;
