//! The periodic tick source that paces the animation.

use vstd::prelude::*;

verus! {

/// Frequency of the clock that the tick source counts, in hertz.
pub const BASE_CLOCK_HZ: u32 = 32_768;

/// The largest reload value that the counter of the tick source takes.
pub const MAX_RELOAD: u32 = 4095;

/// The reload value for sixteen ticks a second.
pub const RELOAD_16_HZ: u32 = 2047;

/// Why the setup could not be completed.
#[derive(Clone, Copy, Debug, PartialEq, Eq)]
pub enum SetupError {
    /// A peripheral that the setup needs cannot be had: it was claimed
    /// before, or it does not exist as asked for.
    HardwareUnavailable,
}

/// What a tick source is to its callers: its reload value and whether a
/// tick event waits to be handled.
pub struct TickModel {
    pub reload: nat,
    pub pending: bool,
}

/// A countdown peripheral that raises an event once per period: every
/// `reload + 1` cycles of the base clock.
#[derive(Clone, Copy, Debug, PartialEq, Eq)]
pub struct PeriodicSource {
    reload: u32,
    pending: bool,
}

impl View for PeriodicSource {
    type V = TickModel;

    closed spec fn view(&self) -> TickModel {
        TickModel { reload: self.reload as nat, pending: self.pending }
    }
}

impl PeriodicSource {
    #[verifier::type_invariant]
    spec fn inv(self) -> bool {
        self.reload <= MAX_RELOAD
    }

    /// A tick source with the given reload value and no event pending. A
    /// reload value beyond what the counter takes cannot be had.
    pub fn new(reload: u32) -> (source: Result<PeriodicSource, SetupError>)
        ensures
            reload <= MAX_RELOAD ==> source is Ok && source->Ok_0@ == (TickModel {
                reload: reload as nat,
                pending: false,
            }),
            reload > MAX_RELOAD ==> source == Err::<PeriodicSource, SetupError>(
                SetupError::HardwareUnavailable,
            ),
    {
        if reload > MAX_RELOAD {
            Err(SetupError::HardwareUnavailable)
        } else {
            Ok(PeriodicSource { reload, pending: false })
        }
    }

    /// The reload value.
    pub fn reload(&self) -> (reload: u32)
        ensures
            reload == self@.reload,
            reload <= MAX_RELOAD,
    {
        proof {
            use_type_invariant(self);
        }
        self.reload
    }

    /// The number of ticks per second, rounded down.
    pub fn frequency_hz(&self) -> (hz: u32)
        ensures
            hz == BASE_CLOCK_HZ as nat / (self@.reload + 1),
            8 <= hz <= BASE_CLOCK_HZ,
    {
        proof {
            use_type_invariant(self);
        }
        let hz = BASE_CLOCK_HZ / (self.reload + 1);
        assert(8 <= hz <= BASE_CLOCK_HZ) by (nonlinear_arith)
            requires
                hz == 32768int / (self.reload + 1) as int,
                0 <= self.reload <= 4095,
        ;
        hz
    }

    /// Whether a tick event waits to be handled.
    pub fn event_pending(&self) -> (pending: bool)
        ensures
            pending == self@.pending,
    {
        self.pending
    }

    /// Records that the period ran out: a tick event is pending from now
    /// on. An event that was pending already stays the one event.
    pub fn raise(&mut self)
        ensures
            final(self)@ == (TickModel { reload: old(self)@.reload, pending: true }),
    {
        proof {
            use_type_invariant(&*self);
        }
        self.pending = true;
    }

    /// Clears the pending event, so that the next period can raise it
    /// again.
    pub fn rearm(&mut self)
        ensures
            final(self)@ == (TickModel { reload: old(self)@.reload, pending: false }),
    {
        proof {
            use_type_invariant(&*self);
        }
        self.pending = false;
    }
}

} // verus!
