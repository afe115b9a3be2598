use scrolling_led::display::DisplayState;
use scrolling_led::frame::Frame;
use scrolling_led::scroll::ScrollMessage;
use scrolling_led::shared::{SharedState, TickOutcome, Transition};
use scrolling_led::tick::{PeriodicSource, SetupError};

fn installed(message: &str) -> SharedState<104> {
    let mut state = SharedState::<104>::new();
    let result = state.install(
        DisplayState::new(),
        PeriodicSource::new(2047).unwrap(),
        ScrollMessage::new(message),
    );
    assert_eq!(result, Ok(()));
    state
}

#[test]
fn handlers_before_setup_do_nothing() {
    let mut state = SharedState::<104>::new();
    let empty = state;
    for _ in 0..7 {
        assert_eq!(state.handle_display_event(), None);
        assert_eq!(
            state.handle_animation_tick(),
            TickOutcome { rearmed: false, transition: Transition::Idle }
        );
        state.raise_tick();
        assert_eq!(state, empty);
    }
    assert!(!state.is_installed());
    assert_eq!(state.display(), None);
    assert_eq!(state.tick_source(), None);
    assert_eq!(state.scroller(), None);
    assert_eq!(state.frame(), Frame::blank());
}

#[test]
fn setup_installs_all_three() {
    let state = installed("AB");
    assert!(state.is_installed());
    assert_eq!(state.display(), Some(DisplayState::new()));
    assert_eq!(state.tick_source(), Some(PeriodicSource::new(2047).unwrap()));
    assert_eq!(state.scroller(), Some(ScrollMessage::<104>::new("AB")));
}

#[test]
fn second_setup_is_refused() {
    let mut state = installed("AB");
    state.handle_animation_tick();
    let before = state;
    let result = state.install(
        DisplayState::new(),
        PeriodicSource::new(4095).unwrap(),
        ScrollMessage::new("other"),
    );
    assert_eq!(result, Err(SetupError::HardwareUnavailable));
    assert_eq!(state, before);
}

#[test]
fn n_ticks_leave_the_nth_frame() {
    let mut reference = ScrollMessage::<104>::new("SCROLLINGLED");
    let width = reference.total_width();
    let mut state = installed("SCROLLINGLED");
    for n in 1..=width {
        let expected = reference.next();
        let outcome = state.handle_animation_tick();
        assert_eq!(outcome.transition, Transition::Advanced);
        assert_eq!(state.frame(), expected, "after {} ticks", n);
        assert_eq!(state.scroller().unwrap().offset(), n);
    }
    assert!(state.scroller().unwrap().is_finished());
}

#[test]
fn ticks_from_a_fresh_state_each_time() {
    for n in [1usize, 2, 5, 9, 14] {
        let mut reference = ScrollMessage::<104>::new("AB");
        let mut expected = Frame::blank();
        for _ in 0..n {
            expected = reference.next();
        }
        let mut state = installed("AB");
        for _ in 0..n {
            state.handle_animation_tick();
        }
        assert_eq!(state.frame(), expected);
    }
}

#[test]
fn tick_after_the_pass_clears_and_rewinds() {
    let mut state = installed("AB");
    for _ in 0..14 {
        assert_eq!(state.handle_animation_tick().transition, Transition::Advanced);
    }
    let outcome = state.handle_animation_tick();
    assert_eq!(outcome, TickOutcome { rearmed: true, transition: Transition::Restarted });
    assert_eq!(state.frame(), Frame::blank());
    assert!(state.display().unwrap().is_populated());
    assert_eq!(state.scroller(), Some(ScrollMessage::<104>::new("AB")));
}

#[test]
fn message_scrolls_again_after_the_restart() {
    let mut state = installed("Hi");
    let width = state.scroller().unwrap().total_width();
    let mut first = Vec::new();
    for _ in 0..=width {
        state.handle_animation_tick();
        first.push(state.frame());
    }
    let mut second = Vec::new();
    for _ in 0..=width {
        state.handle_animation_tick();
        second.push(state.frame());
    }
    assert_eq!(first, second);
    assert_eq!(first.len(), width + 1);
}

#[test]
fn tick_clears_the_pending_event() {
    let mut state = installed("AB");
    state.raise_tick();
    assert!(state.tick_source().unwrap().event_pending());
    let outcome = state.handle_animation_tick();
    assert!(outcome.rearmed);
    assert!(!state.tick_source().unwrap().event_pending());
    assert_eq!(state.tick_source().unwrap().reload(), 2047);
}

#[test]
fn display_events_show_the_installed_frame_row_by_row() {
    let mut state = installed("A");
    for _ in 0..5 {
        state.handle_animation_tick();
    }
    let frame = state.frame();
    for r in 0..5 {
        let lines = state.handle_display_event().unwrap();
        for row in 0..5 {
            assert_eq!(lines.rows[row], row == r);
        }
        assert_eq!(lines.cols, frame.row(r));
    }
    assert_eq!(state.frame(), frame);
    assert_eq!(state.scroller().unwrap().offset(), 5);
}

#[test]
fn display_events_do_not_move_the_animation() {
    let mut state = installed("AB");
    state.handle_animation_tick();
    let scroller = state.scroller();
    let tick = state.tick_source();
    let frame = state.frame();
    for _ in 0..23 {
        state.handle_display_event();
    }
    assert_eq!(state.scroller(), scroller);
    assert_eq!(state.tick_source(), tick);
    assert_eq!(state.frame(), frame);
    assert_eq!(state.display().unwrap().cursor(), 23 % 5);
}

#[test]
fn ticks_do_not_move_the_row_cursor() {
    let mut state = installed("AB");
    state.handle_display_event();
    state.handle_display_event();
    for _ in 0..40 {
        state.handle_animation_tick();
    }
    assert_eq!(state.display().unwrap().cursor(), 2);
}
