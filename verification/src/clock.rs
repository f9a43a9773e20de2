use vstd::prelude::*;

verus! {

/// Number of instructions between two updates of the peripherals.
pub const IO_PERIOD: u16 = 2000;

/// Counts executed instructions and says when the peripherals are due.
///
/// The peripherals are slow next to the machine: the display is redrawn and
/// the buttons are polled once in [`IO_PERIOD`] instructions only.
pub struct IoClock {
    cycles: u16,
}

/// The count that follows `count`, and whether the peripherals are due on
/// the way there.
pub open spec fn spec_tick(count: nat) -> (bool, nat) {
    if count == IO_PERIOD {
        (true, 1)
    } else {
        (false, count + 1)
    }
}

/// The count of a clock that has ticked `ticks` times since it was made.
pub open spec fn spec_count_after(ticks: nat) -> nat {
    if ticks == 0 {
        0
    } else {
        ((ticks - 1) % (IO_PERIOD as int) + 1) as nat
    }
}

impl IoClock {
    #[verifier::type_invariant]
    spec fn in_period(self) -> bool {
        self.cycles <= IO_PERIOD
    }

    /// The count of the clock: at most [`IO_PERIOD`].
    pub closed spec fn count(self) -> nat {
        self.cycles as nat
    }

    /// A clock that has counted nothing yet.
    pub fn new() -> (clock: IoClock)
        ensures
            clock.count() == 0,
    {
        IoClock { cycles: 0 }
    }

    /// Counts one instruction. Returns `true` where the peripherals are due:
    /// where the count had reached [`IO_PERIOD`], from which it then starts
    /// over.
    pub fn tick(&mut self) -> (due: bool)
        ensures
            (due, final(self).count()) == spec_tick(old(self).count()),
            final(self).count() <= IO_PERIOD,
    {
        proof {
            use_type_invariant(&*self);
        }
        let due = self.cycles == IO_PERIOD;
        if due {
            self.cycles = 1;
        } else {
            self.cycles = self.cycles + 1;
        }
        due
    }
}

/// A clock starts at zero and is due on the tick that follows each full
/// period: on tick 2001, 4001, 6001 and so on.
pub proof fn lemma_due_once_per_period(ticks: nat)
    ensures
        spec_count_after(0) == 0,
        spec_count_after(ticks) <= IO_PERIOD,
        spec_tick(spec_count_after(ticks)) == (
            ticks > 0 && ticks % (IO_PERIOD as nat) == 0,
            spec_count_after(ticks + 1),
        ),
{
}

} // verus!
