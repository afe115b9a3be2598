//! The state that the two interrupt handlers share, and the handlers'
//! decisions.
//!
//! Three slots hold the display, the tick source and the scrolling message.
//! All are empty until the setup installs them, once and together. The
//! firmware keeps one value of [`SharedState`] behind its critical section
//! and calls one entry point per interrupt: [`SharedState::handle_display_event`]
//! from the fast one, [`SharedState::handle_animation_tick`] from the slow
//! one. A handler that finds its slot empty does nothing.

use vstd::prelude::*;
use crate::display::{DisplayModel, DisplayState, MatrixLines};
use crate::frame::{blank_grid, Frame};
use crate::scroll::{frame_at, stream_width, ScrollMessage, ScrollModel};
use crate::tick::{PeriodicSource, SetupError, TickModel};

verus! {

/// What one animation tick did to the picture.
#[derive(Clone, Copy, Debug, PartialEq, Eq)]
pub enum Transition {
    /// The display or the message is not installed: nothing changed.
    Idle,
    /// The next frame of the pass was pulled and installed.
    Advanced,
    /// The pass was over: the display was cleared and the message rewound.
    Restarted,
}

/// What the animation tick handler did.
#[derive(Clone, Copy, Debug, PartialEq, Eq)]
pub struct TickOutcome {
    /// Whether a tick source is installed and its event was cleared.
    pub rearmed: bool,
    /// What happened to the picture.
    pub transition: Transition,
}

/// What the shared state is to its callers: the three slots, each empty or
/// holding its object.
pub struct SharedModel {
    pub display: Option<DisplayModel>,
    pub tick: Option<TickModel>,
    pub scroller: Option<ScrollModel>,
}

impl SharedModel {
    /// The state before the setup: every slot empty.
    pub open spec fn empty() -> SharedModel {
        SharedModel { display: None, tick: None, scroller: None }
    }

    /// Whether every slot is empty.
    pub open spec fn vacant(self) -> bool {
        self.display is None && self.tick is None && self.scroller is None
    }

    /// Whether the display and the message are both installed, so that a
    /// tick moves the animation.
    pub open spec fn animated(self) -> bool {
        self.display is Some && self.scroller is Some
    }

    /// Each installed object is well formed.
    pub open spec fn wf(self) -> bool {
        &&& self.display matches Some(d) ==> d.wf()
        &&& self.scroller matches Some(s) ==> s.wf()
    }

    /// The picture on show: blank while no display is installed.
    pub open spec fn grid(self) -> Seq<Seq<bool>> {
        match self.display {
            Some(d) => d.grid,
            None => blank_grid(),
        }
    }

    /// The state after the tick source, if installed, raised its event.
    pub open spec fn tick_raised(self) -> SharedModel {
        match self.tick {
            Some(t) => SharedModel { tick: Some(TickModel { pending: true, ..t }), ..self },
            None => self,
        }
    }

    /// The state after one display event: the installed display one step
    /// further, everything else as it was.
    pub open spec fn after_display_event(self) -> SharedModel {
        match self.display {
            Some(d) => SharedModel { display: Some(d.step()), ..self },
            None => self,
        }
    }

    /// The state after `count` display events.
    pub open spec fn after_display_events(self, count: nat) -> SharedModel
        decreases count,
    {
        if count == 0 {
            self
        } else {
            self.after_display_events((count - 1) as nat).after_display_event()
        }
    }

    /// What one animation tick does to the picture.
    pub open spec fn tick_transition(self) -> Transition {
        match (self.display, self.scroller) {
            (Some(d), Some(s)) => if s.finished() {
                Transition::Restarted
            } else {
                Transition::Advanced
            },
            _ => Transition::Idle,
        }
    }

    /// The state after one animation tick. The event of an installed tick
    /// source is cleared. Where display and message are both installed, the
    /// next frame of the pass is installed and the message moves one column
    /// on; or, where the pass is over, the display is cleared and the
    /// message rewound.
    pub open spec fn after_tick(self) -> SharedModel {
        let tick = match self.tick {
            Some(t) => Some(TickModel { pending: false, ..t }),
            None => None,
        };
        match (self.display, self.scroller) {
            (Some(d), Some(s)) => if s.finished() {
                SharedModel {
                    display: Some(d.show(blank_grid())),
                    tick,
                    scroller: Some(s.rewind()),
                }
            } else {
                SharedModel { display: Some(d.show(s.frame())), tick, scroller: Some(s.advance()) }
            },
            _ => SharedModel { tick, ..self },
        }
    }

    /// The state after `count` animation ticks.
    pub open spec fn after_ticks(self, count: nat) -> SharedModel
        decreases count,
    {
        if count == 0 {
            self
        } else {
            self.after_ticks((count - 1) as nat).after_tick()
        }
    }
}

/// The three guarded slots. The firmware owns one value of this type and
/// touches it only with interrupts masked.
#[derive(Clone, Copy, Debug, PartialEq, Eq)]
pub struct SharedState<const N: usize> {
    display: Option<DisplayState>,
    tick: Option<PeriodicSource>,
    scroller: Option<ScrollMessage<N>>,
}

impl<const N: usize> View for SharedState<N> {
    type V = SharedModel;

    closed spec fn view(&self) -> SharedModel {
        SharedModel {
            display: match self.display {
                Some(d) => Some(d@),
                None => None,
            },
            tick: match self.tick {
                Some(t) => Some(t@),
                None => None,
            },
            scroller: match self.scroller {
                Some(s) => Some(s@),
                None => None,
            },
        }
    }
}

impl<const N: usize> SharedState<N> {
    /// The state before the setup: every slot empty.
    pub fn new() -> (state: Self)
        ensures
            state@ == SharedModel::empty(),
            state@.wf(),
    {
        SharedState { display: None, tick: None, scroller: None }
    }

    /// Installs the three objects, all at once. The slots are filled once:
    /// where any of them holds an object already, nothing is installed and
    /// the state stays as it is.
    pub fn install(
        &mut self,
        display: DisplayState,
        tick: PeriodicSource,
        scroller: ScrollMessage<N>,
    ) -> (result: Result<(), SetupError>)
        ensures
            old(self)@.vacant() ==> result is Ok && final(self)@ == (SharedModel {
                display: Some(display@),
                tick: Some(tick@),
                scroller: Some(scroller@),
            }),
            !old(self)@.vacant() ==> result == Err::<(), SetupError>(
                SetupError::HardwareUnavailable,
            ) && final(self)@ == old(self)@,
            old(self)@.wf() ==> final(self)@.wf(),
    {
        if self.display.is_some() || self.tick.is_some() || self.scroller.is_some() {
            return Err(SetupError::HardwareUnavailable);
        }
        // Both objects are well formed as every value of their types is.
        let _ = display.cursor();
        let _ = scroller.offset();
        self.display = Some(display);
        self.tick = Some(tick);
        self.scroller = Some(scroller);
        Ok(())
    }

    /// Whether the setup has installed the three objects.
    pub fn is_installed(&self) -> (installed: bool)
        ensures
            installed == (self@.display is Some && self@.tick is Some && self@.scroller is Some),
    {
        self.display.is_some() && self.tick.is_some() && self.scroller.is_some()
    }

    /// The installed display, if any.
    pub fn display(&self) -> (display: Option<DisplayState>)
        ensures
            display is Some == self@.display is Some,
            display matches Some(d) ==> self@.display == Some(d@),
    {
        self.display
    }

    /// The installed tick source, if any.
    pub fn tick_source(&self) -> (tick: Option<PeriodicSource>)
        ensures
            tick is Some == self@.tick is Some,
            tick matches Some(t) ==> self@.tick == Some(t@),
    {
        self.tick
    }

    /// The installed message, if any.
    pub fn scroller(&self) -> (scroller: Option<ScrollMessage<N>>)
        ensures
            scroller is Some == self@.scroller is Some,
            scroller matches Some(s) ==> self@.scroller == Some(s@),
    {
        self.scroller
    }

    /// The frame on show: blank while no display is installed or no frame
    /// was shown.
    pub fn frame(&self) -> (frame: Frame)
        ensures
            frame@ == self@.grid(),
    {
        match &self.display {
            Some(display) => display.frame(),
            None => Frame::blank(),
        }
    }

    /// Records that the tick source raised its event. Without a tick source
    /// nothing happens.
    pub fn raise_tick(&mut self)
        ensures
            final(self)@ == old(self)@.tick_raised(),
            old(self)@.wf() ==> final(self)@.wf(),
    {
        match &mut self.tick {
            Some(tick) => {
                tick.raise();
            },
            None => {},
        }
    }

    /// The handler of the display interrupt. With a display installed it
    /// makes one step of the multiplexer and returns the line levels to
    /// apply; without one it does nothing and returns `None`.
    pub fn handle_display_event(&mut self) -> (lines: Option<MatrixLines>)
        ensures
            final(self)@ == old(self)@.after_display_event(),
            lines is Some == old(self)@.display is Some,
            old(self)@.display is None ==> final(self)@ == old(self)@,
            old(self)@.display matches Some(d) ==> {
                &&& lines is Some
                &&& d.wf()
                &&& d.asserts(lines->Some_0)
                &&& forall|row: int, col: int| lines->Some_0.lit(row, col) == d.drives(row, col)
            },
            old(self)@.wf() ==> final(self)@.wf(),
    {
        proof {
            if self@.wf() {
                law_handlers_keep_wf(self@);
            }
        }
        match &mut self.display {
            Some(display) => {
                let lines = display.handle_display_event();
                Some(lines)
            },
            None => None,
        }
    }

    /// The handler of the tick interrupt. It first clears the event of the
    /// tick source. Then, with display and message both installed, it makes
    /// exactly one change to the picture: it installs the next frame of the
    /// pass, or, where the pass is over, clears the display and rewinds the
    /// message. An empty slot is no error: what needs it is left out.
    pub fn handle_animation_tick(&mut self) -> (outcome: TickOutcome)
        ensures
            final(self)@ == old(self)@.after_tick(),
            outcome.rearmed == old(self)@.tick is Some,
            outcome.transition == old(self)@.tick_transition(),
            !old(self)@.animated() && old(self)@.tick is None ==> final(self)@ == old(self)@,
            old(self)@.wf() ==> final(self)@.wf(),
    {
        proof {
            if self@.wf() {
                law_handlers_keep_wf(self@);
            }
        }
        let rearmed = match &mut self.tick {
            Some(tick) => {
                tick.rearm();
                true
            },
            None => false,
        };
        let transition = match &mut self.display {
            Some(display) => match &mut self.scroller {
                Some(scroller) => {
                    if !scroller.is_finished() {
                        let frame = scroller.next();
                        display.show_frame(frame);
                        Transition::Advanced
                    } else {
                        display.clear();
                        scroller.reset();
                        Transition::Restarted
                    }
                },
                None => Transition::Idle,
            },
            None => Transition::Idle,
        };
        TickOutcome { rearmed, transition }
    }
}

/// The tick source as a tick leaves it: its event cleared.
pub open spec fn rearmed(tick: Option<TickModel>) -> Option<TickModel> {
    match tick {
        Some(t) => Some(TickModel { pending: false, ..t }),
        None => None,
    }
}

/// No tick is dropped. With display and message installed and the message
/// at the start of its pass, after `count` ticks in a row, for any `count`
/// from one up to the number of frames of the pass, the display shows
/// exactly the frame with number `count - 1`, the last one generated, and
/// the message has moved on by `count` columns. Nothing else has changed but
/// the event of the tick source, which is cleared.
pub proof fn law_no_tick_dropped(s: SharedModel, count: nat)
    requires
        s.display is Some,
        s.scroller is Some,
        s.scroller->Some_0.offset == 0,
        1 <= count <= stream_width(s.scroller->Some_0.text),
    ensures
        s.after_ticks(count) == (SharedModel {
            display: Some(
                DisplayModel {
                    grid: frame_at(s.scroller->Some_0.text, count - 1),
                    populated: true,
                    cursor: s.display->Some_0.cursor,
                },
            ),
            tick: rearmed(s.tick),
            scroller: Some(ScrollModel { text: s.scroller->Some_0.text, offset: count }),
        }),
        s.after_ticks(count).grid() == frame_at(s.scroller->Some_0.text, count - 1),
    decreases count,
{
    let text = s.scroller->Some_0.text;
    if count == 1 {
        assert(s.after_ticks(0) == s);
        assert(s.after_ticks(1) == s.after_tick());
    } else {
        law_no_tick_dropped(s, (count - 1) as nat);
    }
}

/// The tick after the last frame of a pass restarts the animation: the
/// display is cleared and the message is back at the start of its pass.
pub proof fn law_restart_after_pass(s: SharedModel)
    requires
        s.display is Some,
        s.scroller is Some,
        s.scroller->Some_0.offset == 0,
    ensures
        s.after_ticks(stream_width(s.scroller->Some_0.text) + 1) == (SharedModel {
            display: Some(
                DisplayModel {
                    grid: blank_grid(),
                    populated: true,
                    cursor: s.display->Some_0.cursor,
                },
            ),
            tick: rearmed(s.tick),
            scroller: Some(ScrollModel::fresh(s.scroller->Some_0.text)),
        }),
{
    let width = stream_width(s.scroller->Some_0.text);
    crate::scroll::lemma_stream_width_bounds(s.scroller->Some_0.text);
    law_no_tick_dropped(s, width);
}

/// The same message scrolls again and again: after a whole pass and the
/// tick that restarts it, any further `count` ticks, from one up to a pass
/// and its restart, lead to the state that `count` ticks led to the first
/// time.
pub proof fn law_pass_repeats(s: SharedModel, count: nat)
    requires
        s.display is Some,
        s.scroller is Some,
        s.scroller->Some_0.offset == 0,
        1 <= count <= stream_width(s.scroller->Some_0.text) + 1,
    ensures
        s.after_ticks(stream_width(s.scroller->Some_0.text) + 1).after_ticks(count)
            == s.after_ticks(count),
{
    let width = stream_width(s.scroller->Some_0.text);
    let again = s.after_ticks(width + 1);
    law_restart_after_pass(s);
    if count <= width {
        law_no_tick_dropped(s, count);
        law_no_tick_dropped(again, count);
    } else {
        law_restart_after_pass(again);
    }
}

/// A display interrupt before the display is installed does nothing,
/// however often it fires.
pub proof fn law_spurious_display_events(s: SharedModel, count: nat)
    requires
        s.display is None,
    ensures
        s.after_display_events(count) == s,
    decreases count,
{
    if count > 0 {
        law_spurious_display_events(s, (count - 1) as nat);
    }
}

/// A tick interrupt before the setup does nothing, however often it fires:
/// without a tick source there is no event to clear, and without the display
/// or without the message the picture and the message stay as they are.
pub proof fn law_spurious_ticks(s: SharedModel, count: nat)
    requires
        s.tick is None,
        s.display is None || s.scroller is None,
    ensures
        s.after_ticks(count) == s,
    decreases count,
{
    if count > 0 {
        law_spurious_ticks(s, (count - 1) as nat);
    }
}

/// The two handlers keep every installed object well formed.
pub proof fn law_handlers_keep_wf(s: SharedModel)
    requires
        s.wf(),
    ensures
        s.after_tick().wf(),
        s.after_display_event().wf(),
{
    if let Some(sc) = s.scroller {
        crate::scroll::lemma_stream_width_bounds(sc.text);
        if let Some(d) = s.display {
            if !sc.finished() {
                assert(crate::frame::is_grid(frame_at(sc.text, sc.offset as int)));
            }
        }
    }
}

} // verus!
