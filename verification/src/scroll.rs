//! The scrolling text generator: a lazy, finite, restartable sequence of
//! frames that moves a message leftward across the matrix.
//!
//! The message is laid out as one long row of columns, the *stream*: the
//! glyph of each character in turn, [`GAP`] blank columns between two
//! neighbours. Each frame brings one more column of the stream in at the right
//! edge of the matrix, so the first frame shows the first column of the
//! message in the rightmost display column, and after the last glyph column
//! [`TRAILING_BLANK`] blank columns follow, which push the message out at the
//! left edge: the last frame of a pass is blank.

use vstd::prelude::*;
use crate::font::{glyph_pixel, glyph_width, lemma_glyph_width_bounds, pixel_of, width_of};
use crate::frame::{blank_grid, Frame, COLS, ROWS};

verus! {

/// Blank columns between the glyphs of two consecutive characters.
pub const GAP: usize = 1;

/// Blank columns that follow the last glyph: one matrix width.
pub const TRAILING_BLANK: usize = 5;

/// The largest capacity a generator can have: with more characters the
/// stream's width would not fit the machine's word.
pub const MAX_CAPACITY: usize = (usize::MAX - 5) / 6;

/// The part of `message` that a generator of the given capacity keeps: all
/// of it if it fits, else its first `capacity` characters.
pub open spec fn retained(message: Seq<char>, capacity: nat) -> Seq<char> {
    if message.len() <= capacity {
        message
    } else {
        message.subrange(0, capacity as int)
    }
}

/// The sum of the glyph widths of the characters of `text`.
pub open spec fn glyph_columns(text: Seq<char>) -> nat
    decreases text.len(),
{
    if text.len() == 0 {
        0
    } else {
        glyph_columns(text.drop_last()) + glyph_width(text.last()) as nat
    }
}

/// The number of gaps in the stream of `text`: one between each two
/// consecutive characters.
pub open spec fn gap_count(text: Seq<char>) -> nat {
    if text.len() == 0 {
        0
    } else {
        (text.len() - 1) as nat
    }
}

/// The number of frames in one pass over `text`: the glyph columns, the gaps
/// between the glyphs and the trailing blank.
pub open spec fn stream_width(text: Seq<char>) -> nat {
    glyph_columns(text) + GAP as nat * gap_count(text) + TRAILING_BLANK as nat
}

/// Whether the stream of `text` is lit at column `col` in row `row`. Before
/// the first column and after the last glyph the stream is blank.
pub open spec fn stream_pixel(text: Seq<char>, col: int, row: int) -> bool
    decreases text.len(),
{
    if text.len() == 0 || col < 0 {
        false
    } else if col < glyph_width(text[0]) + GAP {
        glyph_pixel(text[0], row, col)
    } else {
        stream_pixel(text.skip(1), col - glyph_width(text[0]) - GAP, row)
    }
}

/// The frame with number `index` of a pass over `text`, counted from 0: its
/// rightmost column shows column `index` of the stream.
pub open spec fn frame_at(text: Seq<char>, index: int) -> Seq<Seq<bool>> {
    Seq::new(
        ROWS as nat,
        |row: int| Seq::new(COLS as nat, |col: int| stream_pixel(text, index - 4 + col, row)),
    )
}

/// What a generator is to its callers: the text it keeps and the number of
/// frames it has produced in the current pass.
pub struct ScrollModel {
    pub text: Seq<char>,
    pub offset: nat,
}

impl ScrollModel {
    /// The generator of `text` before its first frame.
    pub open spec fn fresh(text: Seq<char>) -> ScrollModel {
        ScrollModel { text, offset: 0 }
    }

    /// The offset never passes the end of the stream.
    pub open spec fn wf(self) -> bool {
        self.offset <= stream_width(self.text)
    }

    /// The pass is over: every frame of it was produced.
    pub open spec fn finished(self) -> bool {
        self.offset >= stream_width(self.text)
    }

    /// The frame that the next pull yields: the blank frame once the pass is
    /// over.
    pub open spec fn frame(self) -> Seq<Seq<bool>> {
        if self.finished() {
            blank_grid()
        } else {
            frame_at(self.text, self.offset as int)
        }
    }

    /// The generator after one pull: one column further, or unchanged once
    /// the pass is over.
    pub open spec fn advance(self) -> ScrollModel {
        if self.finished() {
            self
        } else {
            ScrollModel { text: self.text, offset: self.offset + 1 }
        }
    }

    /// The generator after `count` pulls.
    pub open spec fn advance_by(self, count: nat) -> ScrollModel
        decreases count,
    {
        if count == 0 {
            self
        } else {
            self.advance_by((count - 1) as nat).advance()
        }
    }

    /// The generator rewound to the start of its pass.
    pub open spec fn rewind(self) -> ScrollModel {
        ScrollModel { text: self.text, offset: 0 }
    }
}

/// A message to scroll, with room for `N` characters.
#[derive(Clone, Copy, Debug, PartialEq, Eq)]
pub struct ScrollMessage<const N: usize> {
    text: [char; N],
    len: usize,
    offset: usize,
    width: usize,
}

impl<const N: usize> View for ScrollMessage<N> {
    type V = ScrollModel;

    closed spec fn view(&self) -> ScrollModel {
        ScrollModel { text: self.text@.subrange(0, self.len as int), offset: self.offset as nat }
    }
}

impl<const N: usize> ScrollMessage<N> {
    #[verifier::type_invariant]
    spec fn inv(self) -> bool {
        &&& self.len <= N
        &&& self.len <= MAX_CAPACITY
        &&& self.width == stream_width(self@.text)
        &&& self.offset <= self.width
    }

    /// A generator for `message`, before its first frame. Where the message
    /// is longer than the capacity, the first `N` characters are kept and
    /// the rest is dropped. The capacity itself may not pass
    /// [`MAX_CAPACITY`].
    pub fn new(message: &str) -> (scroller: Self)
        requires
            N <= MAX_CAPACITY,
        ensures
            scroller@ == ScrollModel::fresh(retained(message@, N as nat)),
            scroller@.wf(),
    {
        let total = message.unicode_len();
        let len = if total < N { total } else { N };
        let ghost kept = retained(message@, N as nat);
        let mut text = [' '; N];
        let mut columns: usize = 0;
        let mut i: usize = 0;
        while i < len
            invariant
                i <= len <= N,
                len <= MAX_CAPACITY,
                kept.len() == len,
                kept == message@.subrange(0, len as int),
                len <= message@.len(),
                text@.subrange(0, i as int) == kept.subrange(0, i as int),
                columns == glyph_columns(kept.subrange(0, i as int)),
                columns <= 5 * i,
            decreases len - i,
        {
            let c = message.get_char(i);
            proof {
                lemma_glyph_width_bounds(c);
                assert(kept.subrange(0, i + 1).drop_last() =~= kept.subrange(0, i as int));
            }
            text[i] = c;
            columns = columns + width_of(c);
            i = i + 1;
            assert(text@.subrange(0, i as int) =~= kept.subrange(0, i as int));
        }
        assert(kept.subrange(0, len as int) =~= kept);
        let gaps = if len == 0 { 0 } else { GAP * (len - 1) };
        let width = columns + gaps + TRAILING_BLANK;
        ScrollMessage { text, len, offset: 0, width }
    }

    /// The number of characters the generator holds room for.
    pub fn capacity(&self) -> (capacity: usize)
        ensures
            capacity == N,
    {
        N
    }

    /// The number of characters kept.
    pub fn len(&self) -> (len: usize)
        ensures
            len == self@.text.len(),
            len <= N,
    {
        proof {
            use_type_invariant(self);
        }
        self.len
    }

    /// The number of frames in one pass.
    pub fn total_width(&self) -> (width: usize)
        ensures
            width == stream_width(self@.text),
    {
        proof {
            use_type_invariant(self);
        }
        self.width
    }

    /// The number of frames produced in the current pass.
    pub fn offset(&self) -> (offset: usize)
        ensures
            offset == self@.offset,
            self@.wf(),
    {
        proof {
            use_type_invariant(self);
        }
        self.offset
    }

    /// Whether every frame of the pass was produced.
    pub fn is_finished(&self) -> (finished: bool)
        ensures
            finished == self@.finished(),
            finished == (self@.offset == stream_width(self@.text)),
            self@.wf(),
    {
        proof {
            use_type_invariant(self);
        }
        self.offset >= self.width
    }

    /// Rewinds to the start of the pass; the text stays as it is.
    pub fn reset(&mut self)
        ensures
            final(self)@ == old(self)@.rewind(),
            final(self)@.wf(),
    {
        proof {
            use_type_invariant(&*self);
        }
        self.offset = 0;
    }

    /// The five cells of one column of the stream, top row first.
    fn stream_column(&self, col: usize) -> (cells: [bool; 5])
        ensures
            forall|row: int| 0 <= row < ROWS ==> cells[row] == stream_pixel(self@.text, col as int, row),
    {
        proof {
            use_type_invariant(self);
        }
        let ghost text = self@.text;
        let mut i: usize = 0;
        let mut start: usize = 0;
        assert(text.skip(0) =~= text);
        while i < self.len
            invariant
                i <= self.len <= N,
                self.len <= MAX_CAPACITY,
                text == self.text@.subrange(0, self.len as int),
                start <= col,
                start <= 6 * i,
                forall|row: int|
                    stream_pixel(text, col as int, row) == stream_pixel(text.skip(i as int), col - start, row),
            decreases self.len - i,
        {
            let c = self.text[i];
            let w = width_of(c);
            assert(text.skip(i as int)[0] == c);
            if col - start < w + GAP {
                let inner = col - start;
                return [
                    pixel_of(c, 0, inner),
                    pixel_of(c, 1, inner),
                    pixel_of(c, 2, inner),
                    pixel_of(c, 3, inner),
                    pixel_of(c, 4, inner),
                ];
            }
            assert(text.skip(i as int).skip(1) =~= text.skip(i + 1));
            start = start + w + GAP;
            i = i + 1;
        }
        [false; 5]
    }

    /// The column of the stream that frame `offset` shows in display column
    /// `col`.
    fn window_column(&self, col: usize) -> (cells: [bool; 5])
        requires
            col < COLS,
        ensures
            forall|row: int|
                0 <= row < ROWS ==> cells[row] == stream_pixel(
                    self@.text,
                    self@.offset - 4 + col,
                    row,
                ),
    {
        proof {
            use_type_invariant(self);
        }
        let lead = 4 - col;
        if self.offset < lead {
            [false; 5]
        } else {
            self.stream_column(self.offset - lead)
        }
    }

    /// Pulls the next frame of the pass and moves one column on. Once the
    /// pass is over the generator stays as it is and the frame is blank.
    pub fn next(&mut self) -> (frame: Frame)
        ensures
            final(self)@ == old(self)@.advance(),
            frame@ == old(self)@.frame(),
            old(self)@.wf(),
            final(self)@.wf(),
    {
        proof {
            use_type_invariant(&*self);
        }
        if self.offset >= self.width {
            return Frame::blank();
        }
        let c0 = self.window_column(0);
        let c1 = self.window_column(1);
        let c2 = self.window_column(2);
        let c3 = self.window_column(3);
        let c4 = self.window_column(4);
        let frame = Frame::from_rows(
            [
                [c0[0], c1[0], c2[0], c3[0], c4[0]],
                [c0[1], c1[1], c2[1], c3[1], c4[1]],
                [c0[2], c1[2], c2[2], c3[2], c4[2]],
                [c0[3], c1[3], c2[3], c3[3], c4[3]],
                [c0[4], c1[4], c2[4], c3[4], c4[4]],
            ],
        );
        assert(frame@ =~~= frame_at(self@.text, self@.offset as int));
        self.offset = self.offset + 1;
        frame
    }
}

/// The glyph columns of a text are those of its first glyph and those of the
/// rest.
pub proof fn lemma_glyph_columns_split_first(text: Seq<char>)
    requires
        text.len() > 0,
    ensures
        glyph_columns(text) == glyph_width(text[0]) + glyph_columns(text.skip(1)),
    decreases text.len(),
{
    let rest = text.skip(1);
    if text.len() == 1 {
        assert(glyph_columns(text.drop_last()) == 0);
        assert(glyph_columns(rest) == 0);
        assert(text.last() == text[0]);
    } else {
        let front = text.drop_last();
        lemma_glyph_columns_split_first(front);
        assert(front.skip(1) =~= rest.drop_last());
        assert(front[0] == text[0]);
        assert(rest.last() == text.last());
        assert(glyph_columns(rest) == glyph_columns(rest.drop_last()) + glyph_width(rest.last()) as nat);
        assert(glyph_columns(text) == glyph_columns(front) + glyph_width(text.last()) as nat);
    }
}

/// A stream is never wider than six columns for each character and the
/// trailing blank, and never narrower than the trailing blank.
pub proof fn lemma_stream_width_bounds(text: Seq<char>)
    ensures
        TRAILING_BLANK <= stream_width(text) <= 6 * text.len() + TRAILING_BLANK,
        text.len() > 0 ==> stream_width(text) >= 2 * text.len() - 1 + TRAILING_BLANK,
    decreases text.len(),
{
    if text.len() > 0 {
        lemma_glyph_width_bounds(text.last());
        lemma_stream_width_bounds(text.drop_last());
    }
}

/// Past the last glyph column the stream is blank.
pub proof fn lemma_stream_blank_after_glyphs(text: Seq<char>, col: int, row: int)
    requires
        col >= stream_width(text) - TRAILING_BLANK,
    ensures
        !stream_pixel(text, col, row),
    decreases text.len(),
{
    if text.len() > 0 && col >= 0 {
        let rest = text.skip(1);
        let first = glyph_width(text[0]);
        lemma_glyph_width_bounds(text[0]);
        lemma_glyph_columns_split_first(text);
        if text.len() == 1 {
            assert(glyph_columns(rest) == 0);
            assert(col >= first);
            assert(!glyph_pixel(text[0], row, col));
            assert(!stream_pixel(rest, col - first - GAP, row));
        } else {
            assert(gap_count(text) == gap_count(rest) + 1);
            assert(col - first - GAP >= stream_width(rest) - TRAILING_BLANK);
            lemma_stream_blank_after_glyphs(rest, col - first - GAP, row);
        }
    }
}

/// Pulling `count` frames from a generator that has as many left moves its
/// offset on by `count` and leaves the text alone.
pub proof fn lemma_advance_by(m: ScrollModel, count: nat)
    requires
        m.offset + count <= stream_width(m.text),
    ensures
        m.advance_by(count) == (ScrollModel { text: m.text, offset: m.offset + count }),
    decreases count,
{
    if count > 0 {
        lemma_advance_by(m, (count - 1) as nat);
    }
}

/// Once the pass is over, further pulls change nothing: the generator
/// stays as it is until it is rewound.
pub proof fn law_finished_is_stable(m: ScrollModel, count: nat)
    requires
        m.finished(),
    ensures
        m.advance_by(count) == m,
    decreases count,
{
    if count > 0 {
        law_finished_is_stable(m, (count - 1) as nat);
    }
}

/// A pass over a text has exactly `stream_width(text)` frames. After `count`
/// pulls from a fresh generator, with `count` below that width, the pass is
/// not over and the next pull yields frame `count`; after exactly that many
/// pulls it is over, and it stays over however many pulls follow.
pub proof fn law_pass_length(text: Seq<char>, count: nat)
    ensures
        count < stream_width(text) ==> {
            &&& !ScrollModel::fresh(text).advance_by(count).finished()
            &&& ScrollModel::fresh(text).advance_by(count).offset == count
            &&& ScrollModel::fresh(text).advance_by(count).frame() == frame_at(text, count as int)
        },
        count >= stream_width(text) ==> {
            &&& ScrollModel::fresh(text).advance_by(count).finished()
            &&& ScrollModel::fresh(text).advance_by(count).offset == stream_width(text)
            &&& ScrollModel::fresh(text).advance_by(count).frame() == blank_grid()
        },
    decreases count,
{
    let fresh = ScrollModel::fresh(text);
    let width = stream_width(text);
    if count <= width {
        lemma_advance_by(fresh, count);
    } else {
        law_pass_length(text, (count - 1) as nat);
    }
}

/// Rewinding brings back the generator as it was made: from any state of a
/// generator, a rewind followed by `count` pulls leaves the state, and yields
/// the frame, that `count` pulls from the fresh generator of the same text
/// do. So the pass after a rewind repeats the first pass frame by frame.
pub proof fn law_rewind_replays(m: ScrollModel, count: nat)
    ensures
        m.rewind() == ScrollModel::fresh(m.text),
        m.rewind().advance_by(count) == ScrollModel::fresh(m.text).advance_by(count),
        m.rewind().advance_by(count).frame() == ScrollModel::fresh(m.text).advance_by(count).frame(),
{
}

/// The trailing blank is one matrix width, so the last frame of a pass is
/// blank: the message has left the matrix before the pass repeats.
pub proof fn law_last_frame_blank(text: Seq<char>)
    ensures
        TRAILING_BLANK >= COLS,
        frame_at(text, stream_width(text) - 1) == blank_grid(),
{
    let last = stream_width(text) - 1;
    assert forall|col: int, row: int| col >= last - 4 implies !#[trigger] stream_pixel(
        text,
        col,
        row,
    ) by {
        lemma_stream_blank_after_glyphs(text, col, row);
    }
    assert(frame_at(text, last) =~~= blank_grid());
}

/// Of a message longer than the capacity exactly the first `capacity`
/// characters are kept, and the stream is laid out from those alone: two
/// messages that agree on them give the same text and the same width,
/// whatever follows.
pub proof fn law_truncation(message: Seq<char>, other: Seq<char>, capacity: nat)
    requires
        message.len() > capacity,
        other.len() >= capacity,
        other.subrange(0, capacity as int) == message.subrange(0, capacity as int),
    ensures
        retained(message, capacity) == message.subrange(0, capacity as int),
        retained(message, capacity).len() == capacity,
        retained(other, capacity) == retained(message, capacity),
        stream_width(retained(other, capacity)) == stream_width(message.subrange(0, capacity as int)),
{
    if other.len() == capacity {
        assert(other.subrange(0, capacity as int) =~= other);
    }
}

/// A message that fits the capacity is kept whole.
pub proof fn law_short_message_kept(message: Seq<char>, capacity: nat)
    requires
        message.len() <= capacity,
    ensures
        retained(message, capacity) == message,
{
}

} // verus!
