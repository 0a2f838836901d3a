//! The flag of a wake signal, as a plain value.

use vstd::prelude::*;

verus! {

/// Whether a wakeup has been asked for and not yet taken.
#[derive(Clone, Copy, Debug)]
pub struct Flag {
    pub raised: bool,
}

impl Flag {
    /// The flag once a wakeup is asked for: raised, whatever it was before.
    pub open spec fn after_raise(self) -> Flag {
        Flag { raised: true }
    }

    /// The flag once it was looked at for a wakeup to take: down, whatever it
    /// was before.
    pub open spec fn after_take(self) -> Flag {
        Flag { raised: false }
    }

    /// A flag that is down.
    pub fn new() -> (flag: Flag)
        ensures
            !flag.raised,
    {
        Flag { raised: false }
    }

    /// Asks for a wakeup.
    pub fn raise(&mut self)
        ensures
            *final(self) == old(self).after_raise(),
    {
        self.raised = true;
    }

    /// Takes the wakeup, if one was asked for, and says whether one was.
    pub fn take(&mut self) -> (taken: bool)
        ensures
            taken == old(self).raised,
            *final(self) == old(self).after_take(),
    {
        let taken = self.raised;
        self.raised = false;
        taken
    }
}

} // verus!
