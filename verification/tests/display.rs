use scrolling_led::display::{DisplayState, FrameBuffer, MatrixLines, MIN_REFRESH_HZ, ROW_SLOT_MICROS};
use scrolling_led::frame::{Frame, COLS, ROWS};

const PATTERN: [[bool; 5]; 5] = [
    [true, false, false, false, true],
    [false, true, false, true, false],
    [false, false, true, false, false],
    [true, true, false, false, false],
    [false, false, false, true, true],
];

fn lit_cells(lines: &MatrixLines) -> [[bool; 5]; 5] {
    let mut cells = [[false; 5]; 5];
    for row in 0..5 {
        for col in 0..5 {
            cells[row][col] = lines.rows[row] && lines.cols[col];
        }
    }
    cells
}

#[test]
fn frame_keeps_its_cells() {
    let frame = Frame::from_rows(PATTERN);
    assert_eq!(frame.rows(), PATTERN);
    for row in 0..ROWS {
        assert_eq!(frame.row(row), PATTERN[row]);
        for col in 0..COLS {
            assert_eq!(frame.is_lit(row, col), PATTERN[row][col]);
        }
    }
    assert_eq!(Frame::blank().rows(), [[false; 5]; 5]);
}

#[test]
fn empty_buffer_reads_as_blank() {
    let mut buffer = FrameBuffer::new();
    assert!(!buffer.is_populated());
    assert_eq!(buffer.frame(), Frame::blank());
    buffer.install(Frame::from_rows(PATTERN));
    assert!(buffer.is_populated());
    assert_eq!(buffer.frame().rows(), PATTERN);
    buffer.clear();
    assert!(buffer.is_populated());
    assert_eq!(buffer.frame(), Frame::blank());
}

#[test]
fn step_after_r_steps_lights_row_r_only() {
    for r in 0..5 {
        let mut display = DisplayState::new();
        display.show_frame(Frame::from_rows(PATTERN));
        for _ in 0..r {
            display.handle_display_event();
        }
        assert_eq!(display.cursor(), r);
        let lines = display.handle_display_event();
        let lit = lit_cells(&lines);
        for row in 0..5 {
            for col in 0..5 {
                assert_eq!(lit[row][col], row == r && PATTERN[r][col]);
            }
        }
        for row in 0..5 {
            assert_eq!(lines.rows[row], row == r);
        }
        assert_eq!(lines.cols, PATTERN[r]);
    }
}

#[test]
fn cursor_wraps_after_the_bottom_row() {
    let mut display = DisplayState::new();
    display.show_frame(Frame::from_rows(PATTERN));
    let mut seen = Vec::new();
    for _ in 0..12 {
        seen.push(display.cursor());
        display.handle_display_event();
    }
    assert_eq!(seen, vec![0, 1, 2, 3, 4, 0, 1, 2, 3, 4, 0, 1]);
}

#[test]
fn display_without_a_frame_lights_nothing() {
    let mut display = DisplayState::new();
    assert!(!display.is_populated());
    assert_eq!(display.frame(), Frame::blank());
    for step in 0..10 {
        let lines = display.handle_display_event();
        assert_eq!(lines.cols, [false; 5]);
        assert_eq!(lit_cells(&lines), [[false; 5]; 5]);
        assert!(lines.rows[step % 5]);
    }
}

#[test]
fn new_frame_is_shown_from_the_row_under_the_cursor() {
    let mut display = DisplayState::new();
    display.show_frame(Frame::from_rows(PATTERN));
    display.handle_display_event();
    display.handle_display_event();
    let mut other = [[false; 5]; 5];
    other[2] = [true; 5];
    display.show_frame(Frame::from_rows(other));
    assert_eq!(display.cursor(), 2);
    let lines = display.handle_display_event();
    assert_eq!(lines.rows, [false, false, true, false, false]);
    assert_eq!(lines.cols, [true; 5]);
    display.clear();
    assert!(display.is_populated());
    let lines = display.handle_display_event();
    assert_eq!(lines.rows, [false, false, false, true, false]);
    assert_eq!(lines.cols, [false; 5]);
}

#[test]
fn row_slot_gives_sixty_refreshes_a_second() {
    let mut display = DisplayState::new();
    let lines = display.handle_display_event();
    assert_eq!(lines.slot_micros, ROW_SLOT_MICROS);
    assert_eq!(ROW_SLOT_MICROS, 3000);
    assert_eq!(MIN_REFRESH_HZ, 60);
    assert!(ROWS as u32 * ROW_SLOT_MICROS * MIN_REFRESH_HZ <= 1_000_000);
}
