//! The punch meter: waits for a hard acceleration, then keeps the largest
//! reading for as long as a countdown runs, and reports it.

use vstd::prelude::*;

verus! {

/// A reading above this starts a measurement.
pub const PUNCH_THRESHOLD: i32 = 300;

/// Timer cycles for which a measurement lasts.
pub const MEASURE_CYCLES: u32 = 10_000;

/// Milliseconds to wait between two readings.
pub const SAMPLE_DELAY_MS: u8 = 50;

/// What the countdown timer said when it was asked.
#[derive(Clone, Copy, Debug, PartialEq, Eq)]
pub enum Countdown {
    /// The countdown is still running.
    Running,
    /// The countdown has run out.
    Elapsed,
}

/// What the caller has to do after a reading was handled.
#[derive(Clone, Copy, Debug, PartialEq, Eq)]
pub enum PunchAction {
    /// Nothing but to wait for the next reading.
    Wait,
    /// Start the countdown, with this many cycles.
    StartCountdown(u32),
    /// Report this value as the largest acceleration of the punch.
    Report(i32),
}

/// What a punch meter is to its callers.
pub struct PunchModel {
    pub measuring: bool,
    pub max_punch: int,
}

impl PunchModel {
    /// While a measurement runs, the largest reading is above the
    /// threshold.
    pub open spec fn wf(self) -> bool {
        self.measuring ==> self.max_punch > PUNCH_THRESHOLD
    }

    /// Whether the countdown has to be asked before the next reading is
    /// handled: it is asked only during a measurement.
    pub open spec fn consults_countdown(self) -> bool {
        self.measuring
    }

    /// The meter after a reading `x`, where the countdown said `countdown`.
    pub open spec fn after_sample(self, x: int, countdown: Countdown) -> PunchModel {
        if self.measuring {
            match countdown {
                Countdown::Running => PunchModel {
                    measuring: true,
                    max_punch: if x > self.max_punch {
                        x
                    } else {
                        self.max_punch
                    },
                },
                Countdown::Elapsed => PunchModel { measuring: false, max_punch: self.max_punch },
            }
        } else if x > PUNCH_THRESHOLD {
            PunchModel { measuring: true, max_punch: x }
        } else {
            self
        }
    }

    /// What the caller has to do after that reading.
    pub open spec fn action(self, x: int, countdown: Countdown) -> PunchAction {
        if self.measuring {
            match countdown {
                Countdown::Running => PunchAction::Wait,
                Countdown::Elapsed => PunchAction::Report(self.max_punch as i32),
            }
        } else if x > PUNCH_THRESHOLD {
            PunchAction::StartCountdown(MEASURE_CYCLES)
        } else {
            PunchAction::Wait
        }
    }

    /// The meter after the readings `xs`, taken in turn while the countdown
    /// runs.
    pub open spec fn after_running(self, xs: Seq<int>) -> PunchModel
        decreases xs.len(),
    {
        if xs.len() == 0 {
            self
        } else {
            self.after_running(xs.drop_last()).after_sample(xs.last(), Countdown::Running)
        }
    }
}

/// The punch meter.
#[derive(Clone, Copy, Debug, PartialEq, Eq)]
pub struct PunchMeter {
    measuring: bool,
    max_punch: i32,
}

impl View for PunchMeter {
    type V = PunchModel;

    closed spec fn view(&self) -> PunchModel {
        PunchModel { measuring: self.measuring, max_punch: self.max_punch as int }
    }
}

impl PunchMeter {
    #[verifier::type_invariant]
    spec fn inv(self) -> bool {
        self.measuring ==> self.max_punch > PUNCH_THRESHOLD
    }

    /// A meter that waits for a punch.
    pub fn new() -> (meter: PunchMeter)
        ensures
            meter@ == (PunchModel { measuring: false, max_punch: 0 }),
    {
        PunchMeter { measuring: false, max_punch: 0 }
    }

    /// Whether a measurement runs. Only then is the countdown asked.
    pub fn is_measuring(&self) -> (measuring: bool)
        ensures
            measuring == self@.measuring,
            self@.wf(),
    {
        proof {
            use_type_invariant(self);
        }
        self.measuring
    }

    /// The largest reading of the current measurement or, between
    /// measurements, of the last one.
    pub fn max_punch(&self) -> (max_punch: i32)
        ensures
            max_punch == self@.max_punch,
    {
        self.max_punch
    }

    /// Handles one reading `x` of the acceleration. `countdown` is what the
    /// countdown timer said just before; between measurements it is not
    /// looked at.
    pub fn on_sample(&mut self, x: i32, countdown: Countdown) -> (action: PunchAction)
        ensures
            final(self)@ == old(self)@.after_sample(x as int, countdown),
            action == old(self)@.action(x as int, countdown),
            final(self)@.wf(),
    {
        proof {
            use_type_invariant(&*self);
        }
        if self.measuring {
            match countdown {
                Countdown::Running => {
                    if x > self.max_punch {
                        self.max_punch = x;
                    }
                    PunchAction::Wait
                },
                Countdown::Elapsed => {
                    self.measuring = false;
                    PunchAction::Report(self.max_punch)
                },
            }
        } else if x > PUNCH_THRESHOLD {
            self.max_punch = x;
            self.measuring = true;
            PunchAction::StartCountdown(MEASURE_CYCLES)
        } else {
            PunchAction::Wait
        }
    }
}

/// During a measurement the meter holds the largest reading so far: after
/// any readings taken while the countdown runs, the value kept is at least
/// the one kept before and at least each of the readings, and it is one of
/// them.
pub proof fn law_keeps_largest(m: PunchModel, xs: Seq<int>)
    requires
        m.measuring,
    ensures
        m.after_running(xs).measuring,
        m.after_running(xs).max_punch >= m.max_punch,
        forall|i: int| 0 <= i < xs.len() ==> m.after_running(xs).max_punch >= xs[i],
        m.after_running(xs).max_punch == m.max_punch || exists|i: int|
            0 <= i < xs.len() && m.after_running(xs).max_punch == xs[i],
    decreases xs.len(),
{
    if xs.len() > 0 {
        let front = xs.drop_last();
        law_keeps_largest(m, front);
        let before = m.after_running(front);
        let after = m.after_running(xs);
        assert(after == before.after_sample(xs.last(), Countdown::Running));
        assert forall|i: int| 0 <= i < xs.len() implies after.max_punch >= xs[i] by {
            if i < front.len() {
                assert(front[i] == xs[i]);
            }
        }
        if after.max_punch != m.max_punch {
            if after.max_punch == xs.last() {
                assert(xs[xs.len() - 1] == after.max_punch);
            } else {
                let i = choose|i: int| 0 <= i < front.len() && before.max_punch == front[i];
                assert(xs[i] == after.max_punch);
            }
        }
    }
}

/// What is reported when the countdown runs out is the largest reading
/// kept, and the meter then waits for the next punch.
pub proof fn law_report(m: PunchModel, x: int)
    requires
        m.measuring,
        i32::MIN <= m.max_punch <= i32::MAX,
    ensures
        m.action(x, Countdown::Elapsed) == PunchAction::Report(m.max_punch as i32),
        !m.after_sample(x, Countdown::Elapsed).measuring,
        m.after_sample(x, Countdown::Elapsed).max_punch == m.max_punch,
{
}

} // verus!
