use scrolling_led::frame::Frame;
use scrolling_led::scroll::{ScrollMessage, GAP, MAX_CAPACITY, TRAILING_BLANK};

// The stream of "AB", row by row: the glyph of A, one blank column, the glyph
// of B, five blank columns.
const AB_STREAM: [&str; 5] = [
    ".##..###......",
    "#..#.#..#.....",
    "####.###......",
    "#..#.#..#.....",
    "#..#.###......",
];

fn window(stream: &[&str; 5], index: usize) -> [[bool; 5]; 5] {
    let mut cells = [[false; 5]; 5];
    for row in 0..5 {
        let line = stream[row].as_bytes();
        for col in 0..5 {
            let at = index as i64 - 4 + col as i64;
            if at >= 0 && (at as usize) < line.len() {
                cells[row][col] = line[at as usize] == b'#';
            }
        }
    }
    cells
}

fn pass<const N: usize>(scroller: &mut ScrollMessage<N>) -> Vec<Frame> {
    let mut frames = Vec::new();
    while !scroller.is_finished() {
        frames.push(scroller.next());
    }
    frames
}

#[test]
fn ab_takes_fourteen_frames() {
    let mut scroller = ScrollMessage::<104>::new("AB");
    assert_eq!(scroller.total_width(), 4 + 1 + 4 + 5);
    assert_eq!(scroller.total_width(), 14);
    for produced in 0..14 {
        assert!(!scroller.is_finished());
        assert_eq!(scroller.offset(), produced);
        scroller.next();
    }
    assert!(scroller.is_finished());
    assert_eq!(scroller.offset(), 14);
}

#[test]
fn ab_frames_are_windows_onto_the_stream() {
    let mut scroller = ScrollMessage::<104>::new("AB");
    for index in 0..14 {
        let frame = scroller.next();
        assert_eq!(frame.rows(), window(&AB_STREAM, index), "frame {}", index);
    }
}

#[test]
fn first_frame_shows_first_column_at_the_right_edge() {
    let mut scroller = ScrollMessage::<64>::new("A");
    let frame = scroller.next();
    assert_eq!(
        frame.rows(),
        [
            [false, false, false, false, false],
            [false, false, false, false, true],
            [false, false, false, false, true],
            [false, false, false, false, true],
            [false, false, false, false, true],
        ]
    );
}

#[test]
fn fifth_frame_shows_the_whole_glyph() {
    let mut scroller = ScrollMessage::<64>::new("A");
    let mut frame = scroller.next();
    for _ in 0..4 {
        frame = scroller.next();
    }
    assert_eq!(
        frame.rows(),
        [
            [false, true, true, false, false],
            [true, false, false, true, false],
            [true, true, true, true, false],
            [true, false, false, true, false],
            [true, false, false, true, false],
        ]
    );
}

#[test]
fn last_frame_of_a_pass_is_blank() {
    let mut scroller = ScrollMessage::<104>::new("SCROLLINGLED");
    let frames = pass(&mut scroller);
    assert_eq!(frames.len(), scroller.total_width());
    assert_eq!(*frames.last().unwrap(), Frame::blank());
    assert_ne!(frames[frames.len() - 2], Frame::blank());
}

#[test]
fn width_of_the_reference_message() {
    // S C R O L L I N G L E D: eleven glyphs of four columns, the I of three.
    let scroller = ScrollMessage::<104>::new("SCROLLINGLED");
    assert_eq!(scroller.len(), 12);
    assert_eq!(scroller.total_width(), 11 * 4 + 3 + 11 * GAP + TRAILING_BLANK);
    assert_eq!(scroller.total_width(), 63);
}

#[test]
fn reset_replays_the_same_frames() {
    let mut scroller = ScrollMessage::<104>::new("Hello, world!");
    let first = pass(&mut scroller);
    assert!(scroller.is_finished());
    scroller.reset();
    assert!(!scroller.is_finished());
    assert_eq!(scroller.offset(), 0);
    let second = pass(&mut scroller);
    assert_eq!(first, second);
    assert_eq!(first.len(), scroller.total_width());
}

#[test]
fn reset_in_the_middle_starts_over() {
    let mut scroller = ScrollMessage::<104>::new("AB");
    let fresh = scroller;
    for _ in 0..6 {
        scroller.next();
    }
    scroller.reset();
    assert_eq!(scroller, fresh);
    assert_eq!(scroller.next().rows(), window(&AB_STREAM, 0));
}

#[test]
fn finished_generator_stays_finished_and_yields_blank() {
    let mut scroller = ScrollMessage::<8>::new("i");
    assert_eq!(scroller.total_width(), 1 + 5);
    pass(&mut scroller);
    let done = scroller;
    for _ in 0..3 {
        assert_eq!(scroller.next(), Frame::blank());
        assert!(scroller.is_finished());
        assert_eq!(scroller, done);
    }
}

#[test]
fn long_message_is_cut_to_capacity() {
    let mut cut = ScrollMessage::<2>::new("ABCDEFGH");
    let mut short = ScrollMessage::<2>::new("AB");
    assert_eq!(cut.capacity(), 2);
    assert_eq!(cut.len(), 2);
    assert_eq!(cut.total_width(), 14);
    assert_eq!(cut, short);
    assert_eq!(pass(&mut cut), pass(&mut short));
}

#[test]
fn width_comes_from_the_kept_text_only() {
    // M and W are five columns wide, i is one: whatever follows the first
    // three characters must not count.
    let cut = ScrollMessage::<3>::new("iiiMWMWMW");
    assert_eq!(cut.total_width(), 3 * 1 + 2 * GAP + TRAILING_BLANK);
    let other = ScrollMessage::<3>::new("iii!!!");
    assert_eq!(cut.total_width(), other.total_width());
}

#[test]
fn message_that_fits_exactly_is_kept_whole() {
    let scroller = ScrollMessage::<4>::new("MMMM");
    assert_eq!(scroller.len(), 4);
    assert_eq!(scroller.total_width(), 4 * 5 + 3 * GAP + TRAILING_BLANK);
}

#[test]
fn empty_message_is_one_blank_matrix_width() {
    let mut scroller = ScrollMessage::<64>::new("");
    assert_eq!(scroller.len(), 0);
    assert_eq!(scroller.total_width(), TRAILING_BLANK);
    let frames = pass(&mut scroller);
    assert_eq!(frames.len(), 5);
    for frame in frames {
        assert_eq!(frame, Frame::blank());
    }
}

#[test]
fn zero_capacity_keeps_nothing() {
    let scroller = ScrollMessage::<0>::new("anything");
    assert_eq!(scroller.len(), 0);
    assert_eq!(scroller.total_width(), 5);
}

#[test]
fn unmapped_characters_show_the_fallback_box() {
    let mut scroller = ScrollMessage::<16>::new("\u{e9}");
    assert_eq!(scroller.len(), 1);
    assert_eq!(scroller.total_width(), 4 + TRAILING_BLANK);
    let mut frame = scroller.next();
    for _ in 0..4 {
        frame = scroller.next();
    }
    assert_eq!(
        frame.rows(),
        [
            [true, true, true, true, false],
            [true, false, false, true, false],
            [true, false, false, true, false],
            [true, false, false, true, false],
            [true, true, true, true, false],
        ]
    );
    let control = ScrollMessage::<16>::new("\u{7}");
    assert_eq!(control.total_width(), 9);
}

#[test]
fn characters_count_not_bytes() {
    // Three characters of two bytes each fit a capacity of three.
    let scroller = ScrollMessage::<3>::new("\u{e9}\u{e9}\u{e9}");
    assert_eq!(scroller.len(), 3);
    assert_eq!(scroller.total_width(), 3 * 4 + 2 * GAP + TRAILING_BLANK);
}

#[test]
fn largest_capacity_leaves_room_for_the_width() {
    assert!(MAX_CAPACITY >= 104);
    assert!(MAX_CAPACITY.checked_mul(6).and_then(|w| w.checked_add(5)).is_some());
}
