//! The view: an abstract window onto a text buffer.
//!
//! A view keeps its size, how far it is scrolled sideways, the marks that name
//! its cursor and its first visible line, an internal clipboard and a status
//! message. The buffer itself lives with the caller: the view says which
//! buffer operations to perform (`BufferOp`, `Step`) and takes what the buffer
//! answered as arguments.

use std::time::SystemTime;
use vstd::prelude::*;
use vstd::view::View as _;
use crate::clock::{as_secs, elapsed, now};
use crate::render::{
    clear_cells, clear_rows, draw_line, draw_status_cells, is_plain, lemma_clear_grid,
    lemma_draw_plain_line, spec_draw_line, spec_draw_status, status_bytes, status_text, text_cell,
    Cell,
};
use crate::scroll::{max_extent, spec_scroll_left, spec_scroll_rows};
use crate::text_object::{Anchor, Kind, Mark, Offset, TextObject};

verus! {

/// An operation on the buffer that the view asks for.
#[derive(Clone, Copy, Debug, PartialEq, Eq, Structural)]
pub enum BufferOp {
    /// Put the mark at this character index.
    SetMark(Mark, usize),
    /// Put the mark where the text object lies.
    SetMarkToObject(Mark, TextObject),
    /// Remove the text from the mark to the text object.
    RemoveFromMarkToObject(Mark, TextObject),
}

/// One step of an editing command made of several buffer interactions.
#[derive(Clone, Copy, Debug, PartialEq, Eq, Structural)]
pub enum Step {
    /// Move the mark to the text object, then keep the cursor on screen
    /// (`View::maybe_move_screen`).
    MoveMark(Mark, TextObject),
    /// Delete from the mark to the text object (`View::delete_from_mark_to_object`).
    DeleteFromMarkToObject(Mark, TextObject),
    /// Copy the selection to the clipboard (`View::copy_selection`).
    CopySelection,
    /// Read the selection and keep it for a later `InsertTaken`.
    TakeSelection,
    /// Insert what `TakeSelection` read at the cursor (`View::insert_string`).
    InsertTaken,
}

/// What one redraw paints: the cells in printing order, and where the
/// terminal cursor goes, if anywhere.
pub struct Frame {
    pub cells: Vec<Cell>,
    pub cursor: Option<(isize, isize)>,
}

/// A View is an abstract window into a buffer.
///
/// It draws a portion of the buffer to the screen, maintains the status bar
/// (with the buffer's dirty status) and a status message.
pub struct View {
    /// Holds copied text when the system clipboard is not available.
    clipboard: String,
    height: usize,
    width: usize,
    /// First character of the top line to be displayed.
    top_line: Mark,
    /// Index into the top line: used for horizontal scrolling.
    left_col: usize,
    /// The view's cursor: a mark in the buffer.
    cursor: Mark,
    /// Number of lines from the top/bottom of the view after which vertical
    /// scrolling begins.
    threshold: usize,
    /// Message shown in the status bar, with the time it was shown.
    message: Option<(&'static str, SystemTime)>,
}

/// How long a status message stays, in seconds.
pub const MESSAGE_SECS: u64 = 5;

/// The message shown when a buffer without a file name is to be saved.
pub const NO_FILE_NAME_MESSAGE: &'static str = "Without filename new create under development.";

/// The op that moves the first visible line `n` lines (up when negative),
/// if it moves at all.
pub open spec fn top_line_shift(top_line: Mark, n: int) -> Option<BufferOp> {
    if n < 0 {
        Some(
            BufferOp::SetMarkToObject(
                top_line,
                TextObject {
                    kind: Kind::Line(Anchor::Same),
                    offset: Offset::Backward((-n) as usize, top_line),
                },
            ),
        )
    } else if n > 0 {
        Some(
            BufferOp::SetMarkToObject(
                top_line,
                TextObject { kind: Kind::Line(Anchor::Same), offset: Offset::Forward(n as usize, top_line) },
            ),
        )
    } else {
        None
    }
}

/// The terminal cursor's position: the cursor's coordinates relative to the
/// first visible column and line.
pub open spec fn spec_draw_cursor(
    left_col: usize,
    top: Option<(usize, usize)>,
    cursor: Option<(usize, usize)>,
) -> Option<(isize, isize)> {
    match (top, cursor) {
        (Some(t), Some(c)) => Some(((c.0 - left_col) as isize, (c.1 - t.1) as isize)),
        _ => None,
    }
}

/// The rows of text that a redraw shows: row `y` shows `lines[y]`, or nothing
/// past the last line given.
pub open spec fn text_rows(lines: Seq<String>, rows: nat, left: int, rb_width: int) -> Seq<Cell>
    decreases rows,
{
    if rows == 0 {
        seq![]
    } else {
        let y = rows - 1;
        let line = if y < lines.len() {
            lines[y]@
        } else {
            Seq::<char>::empty()
        };
        text_rows(lines, (rows - 1) as nat, left, rb_width) + spec_draw_line(line, y, left, rb_width)
    }
}

/// The message text, if a message is shown.
pub open spec fn message_text(message: Option<(&'static str, SystemTime)>) -> Option<Seq<char>> {
    match message {
        Some(m) => Some(m.0@),
        None => None,
    }
}

/// Whether a message shown `elapsed` ago should be cleared: when the clock
/// read at least `MESSAGE_SECS` seconds.
pub open spec fn spec_message_expired(elapsed_secs: Option<u64>) -> bool {
    match elapsed_secs {
        Some(s) => s >= MESSAGE_SECS,
        None => false,
    }
}

/// The steps that delete the selection.
pub open spec fn spec_delete_selection() -> Seq<Step> {
    seq![
        Step::MoveMark(
            Mark::Cursor(0),
            TextObject { kind: Kind::Line(Anchor::Start), offset: Offset::Backward(0, Mark::Cursor(0)) },
        ),
        Step::DeleteFromMarkToObject(
            Mark::Cursor(0),
            TextObject { kind: Kind::Line(Anchor::Same), offset: Offset::Forward(1, Mark::Cursor(0)) },
        ),
    ]
}

/// The cursor motion to the start of the previous selection.
pub open spec fn to_previous_selection() -> Step {
    Step::MoveMark(
        Mark::Cursor(0),
        TextObject { kind: Kind::Selection(Anchor::Start), offset: Offset::Backward(1, Mark::Cursor(0)) },
    )
}

/// The steps that move the selected line one line down (`down`) or up.
///
/// Down: go to the end of the selection and one character further, take the
/// selection there, delete it, go back to the start of the previous selection
/// and insert what was taken. Up: take the selection, delete it, go to the
/// start of the previous selection, insert what was taken, and go to the start
/// of the previous selection again.
pub open spec fn spec_move_selection(down: bool) -> Seq<Step> {
    if down {
        seq![
            Step::MoveMark(
                Mark::Cursor(0),
                TextObject { kind: Kind::Selection(Anchor::End), offset: Offset::Forward(0, Mark::Cursor(0)) },
            ),
            Step::MoveMark(
                Mark::Cursor(0),
                TextObject { kind: Kind::Char, offset: Offset::Forward(1, Mark::Cursor(0)) },
            ),
            Step::TakeSelection,
        ] + spec_delete_selection() + seq![to_previous_selection(), Step::InsertTaken]
    } else {
        seq![Step::TakeSelection] + spec_delete_selection() + seq![
            to_previous_selection(),
            Step::InsertTaken,
            to_previous_selection(),
        ]
    }
}

/// Calls `String::from_iter` on the characters: the string holds them, in order.
#[verifier::external_body]
fn string_from_chars(chars: &Vec<char>) -> (s: String)
    ensures
        s@ == chars@,
{
    String::from_iter(chars.iter())
}

impl View {
    #[verifier::type_invariant]
    spec fn inv(self) -> bool {
        &&& self.left_col <= max_extent() + 1
        &&& self.threshold <= max_extent()
    }

    pub closed spec fn spec_clipboard(&self) -> Seq<char> {
        self.clipboard@
    }

    pub closed spec fn spec_height(&self) -> usize {
        self.height
    }

    pub closed spec fn spec_width(&self) -> usize {
        self.width
    }

    pub closed spec fn spec_top_line(&self) -> Mark {
        self.top_line
    }

    pub closed spec fn spec_left_col(&self) -> usize {
        self.left_col
    }

    pub closed spec fn spec_cursor(&self) -> Mark {
        self.cursor
    }

    pub closed spec fn spec_threshold(&self) -> usize {
        self.threshold
    }

    pub closed spec fn spec_message(&self) -> Option<(&'static str, SystemTime)> {
        self.message
    }

    /// A view `width` columns wide and `height` rows high (with its status
    /// line), scrolled fully left, with the cursor and the first visible line
    /// at the start of the buffer; also the buffer operations that put them there.
    pub fn new(width: usize, height: usize) -> (r: (View, Vec<BufferOp>))
        ensures
            r.0.spec_width() == width,
            r.0.spec_height() == height,
            r.0.spec_cursor() == Mark::Cursor(0),
            r.0.spec_top_line() == Mark::DisplayMark(0),
            r.0.spec_left_col() == 0,
            r.0.spec_threshold() == 5,
            r.0.spec_message() is None,
            r.0.spec_clipboard() == Seq::<char>::empty(),
            r.1@ == seq![BufferOp::SetMark(Mark::Cursor(0), 0), BufferOp::SetMark(Mark::DisplayMark(0), 0)],
    {
        let cursor = Mark::Cursor(0);
        let top_line = Mark::DisplayMark(0);
        let mut ops: Vec<BufferOp> = Vec::new();
        ops.push(BufferOp::SetMark(cursor, 0));
        ops.push(BufferOp::SetMark(top_line, 0));
        let view = View {
            top_line: top_line,
            left_col: 0,
            cursor: cursor,
            threshold: 5,
            message: None,
            height: height,
            width: width,
            clipboard: String::new(),
        };
        (view, ops)
    }

    /// The start of the selection: the start of the cursor's line.
    pub fn selection_start() -> (r: TextObject)
        ensures
            r == (TextObject { kind: Kind::Line(Anchor::Start), offset: Offset::Backward(0, Mark::Cursor(0)) }),
    {
        TextObject { kind: Kind::Line(Anchor::Start), offset: Offset::Backward(0, Mark::Cursor(0)) }
    }

    /// The end of the selection: one line below the cursor.
    pub fn selection_end() -> (r: TextObject)
        ensures
            r == (TextObject { kind: Kind::Line(Anchor::Same), offset: Offset::Forward(1, Mark::Cursor(0)) }),
    {
        TextObject { kind: Kind::Line(Anchor::Same), offset: Offset::Forward(1, Mark::Cursor(0)) }
    }

    /// The height of the view: the screen's height minus the status bar.
    pub fn get_height(&self) -> (h: usize)
        requires
            self.spec_height() >= 1,
        ensures
            h == self.spec_height() - 1,
    {
        self.height - 1
    }

    /// The width of the view.
    pub fn get_width(&self) -> (w: usize)
        ensures
            w == self.spec_width(),
    {
        self.width
    }

    /// The mark that is the view's cursor.
    pub fn cursor(&self) -> (m: Mark)
        ensures
            m == self.spec_cursor(),
    {
        self.cursor
    }

    /// The mark at the first character of the first visible line.
    pub fn top_line(&self) -> (m: Mark)
        ensures
            m == self.spec_top_line(),
    {
        self.top_line
    }

    /// The height of the screen the view paints, with its status line.
    pub fn full_height(&self) -> (h: usize)
        ensures
            h == self.spec_height(),
    {
        self.height
    }

    /// The first visible column.
    pub fn left_col(&self) -> (c: usize)
        ensures
            c == self.spec_left_col(),
    {
        self.left_col
    }

    /// Resizes the view.
    pub fn resize(&mut self, width: usize, height: usize)
        ensures
            final(self).spec_width() == width,
            final(self).spec_height() == height,
            final(self).spec_clipboard() == old(self).spec_clipboard(),
            final(self).spec_top_line() == old(self).spec_top_line(),
            final(self).spec_left_col() == old(self).spec_left_col(),
            final(self).spec_cursor() == old(self).spec_cursor(),
            final(self).spec_threshold() == old(self).spec_threshold(),
            final(self).spec_message() == old(self).spec_message(),
    {
        proof {
            use_type_invariant(&*self);
        }
        self.height = height;
        self.width = width;
    }

    /// Clears the screen: a blank in every cell of every row, row by row.
    pub fn clear(&self) -> (cells: Vec<Cell>)
        ensures
            cells@ == clear_rows(self.spec_height() as nat, self.spec_width() as nat),
    {
        clear_cells(self.height, self.width)
    }

    /// Redraws the screen on a terminal `rb_width` columns wide: clears it,
    /// draws `lines` (the buffer's lines from the first visible one on) on the
    /// rows above the status area, then the status area, and places the
    /// terminal cursor.
    ///
    /// `buffer_status`, `cursor`, `top` and `dirty` are what the buffer
    /// reports: its status text, the display coordinates of the cursor and of
    /// the first visible line, and whether it has unsaved changes.
    pub fn draw(
        &self,
        lines: &Vec<String>,
        rb_width: usize,
        buffer_status: &str,
        cursor: Option<(usize, usize)>,
        top: Option<(usize, usize)>,
        dirty: bool,
    ) -> (frame: Frame)
        requires
            self.spec_height() >= 2,
            1 <= rb_width,
            rb_width + 4 <= usize::MAX,
            rb_width - 1 + self.spec_left_col() <= usize::MAX,
            cursor matches Some(c) ==> c.0 < usize::MAX && c.1 < usize::MAX,
            dirty ==> status_bytes(buffer_status@, cursor).len() + 4 <= usize::MAX,
            message_text(self.spec_message()) matches Some(m) ==> m.len() <= usize::MAX,
            (top, cursor) matches (Some(t), Some(c)) ==> (self.spec_left_col() <= c.0 && c.0
                <= isize::MAX && c.1 <= isize::MAX && t.1 <= isize::MAX),
        ensures
            frame.cells@ == clear_rows(self.spec_height() as nat, self.spec_width() as nat)
                + text_rows(
                lines@,
                (self.spec_height() - 2) as nat,
                self.spec_left_col() as int,
                rb_width as int,
            ) + spec_draw_status(
                status_bytes(buffer_status@, cursor),
                dirty,
                message_text(self.spec_message()),
                self.spec_width() as int,
                self.spec_height() - 2,
            ),
            frame.cursor == spec_draw_cursor(self.spec_left_col(), top, cursor),
    {
        let mut cells = self.clear();
        let height = self.get_height() - 1;
        let ghost start = cells@;
        let mut y: usize = 0;
        while y < height
            invariant
                y <= height,
                height == self.spec_height() - 2,
                1 <= rb_width,
                rb_width + 4 <= usize::MAX,
                rb_width - 1 + self.spec_left_col() <= usize::MAX,
                cells@ == start + text_rows(lines@, y as nat, self.spec_left_col() as int, rb_width as int),
            decreases height - y,
        {
            let mut row = if y < lines.len() {
                draw_line(lines[y].as_str(), y, self.left_col, rb_width)
            } else {
                proof {
                    reveal_strlit("");
                    assert(""@ =~= Seq::<char>::empty());
                }
                draw_line("", y, self.left_col, rb_width)
            };
            let ghost before = cells@;
            cells.append(&mut row);
            assert(cells@ =~= start + text_rows(
                lines@,
                (y + 1) as nat,
                self.spec_left_col() as int,
                rb_width as int,
            ));
            y = y + 1;
        }
        let mut status = self.draw_status(buffer_status, cursor, dirty);
        cells.append(&mut status);
        let pos = self.draw_cursor(top, cursor);
        Frame { cells, cursor: pos }
    }

    /// Paints the status area: the status text on the row above the last,
    /// the dirty marker after it, and the message on the last row.
    ///
    /// `buffer_status` is the buffer's status text, `cursor` the display
    /// coordinates of the cursor (counted from zero; shown from one), `dirty`
    /// whether the buffer has unsaved changes.
    pub fn draw_status(&self, buffer_status: &str, cursor: Option<(usize, usize)>, dirty: bool) -> (cells:
        Vec<Cell>)
        requires
            self.spec_height() >= 2,
            cursor matches Some(c) ==> c.0 < usize::MAX && c.1 < usize::MAX,
            dirty ==> status_bytes(buffer_status@, cursor).len() + 4 <= usize::MAX,
            message_text(self.spec_message()) matches Some(m) ==> m.len() <= usize::MAX,
        ensures
            cells@ == spec_draw_status(
                status_bytes(buffer_status@, cursor),
                dirty,
                message_text(self.spec_message()),
                self.spec_width() as int,
                self.spec_height() - 2,
            ),
    {
        let text = status_text(buffer_status, cursor);
        let width = self.get_width();
        let height = self.get_height() - 1;
        let message = match self.message {
            Some((m, _)) => Some(m),
            None => None,
        };
        draw_status_cells(&text, dirty, message, width, height)
    }

    /// Where the terminal cursor goes: the cursor's display coordinates
    /// relative to the first visible column and line, when the buffer reports
    /// both the cursor's coordinates (`cursor`) and the first visible line's
    /// (`top`).
    pub fn draw_cursor(&self, top: Option<(usize, usize)>, cursor: Option<(usize, usize)>) -> (r: Option<
        (isize, isize),
    >)
        requires
            (top, cursor) matches (Some(t), Some(c)) ==> (self.spec_left_col() <= c.0 && c.0
                <= isize::MAX && c.1 <= isize::MAX && t.1 <= isize::MAX),
        ensures
            r == spec_draw_cursor(self.spec_left_col(), top, cursor),
    {
        if let Some(top_line) = top {
            if let Some((x, y)) = cursor {
                return Some(((x - self.left_col) as isize, y as isize - top_line.1 as isize));
            }
        }
        None
    }

    /// Shows the given message, timed from now.
    pub fn show_message(&mut self, message: &'static str)
        ensures
            final(self).spec_message() matches Some(m) && m.0 == message,
            final(self).spec_clipboard() == old(self).spec_clipboard(),
            final(self).spec_height() == old(self).spec_height(),
            final(self).spec_width() == old(self).spec_width(),
            final(self).spec_top_line() == old(self).spec_top_line(),
            final(self).spec_left_col() == old(self).spec_left_col(),
            final(self).spec_cursor() == old(self).spec_cursor(),
            final(self).spec_threshold() == old(self).spec_threshold(),
    {
        proof {
            use_type_invariant(&*self);
        }
        self.message = Some((message, now()));
    }

    /// Whether a message shown `elapsed_secs` seconds ago (`None`: the clock
    /// could not tell) should be cleared.
    pub fn message_expired(elapsed_secs: Option<u64>) -> (r: bool)
        ensures
            r == spec_message_expired(elapsed_secs),
    {
        match elapsed_secs {
            Some(s) => s >= MESSAGE_SECS,
            None => false,
        }
    }

    /// Clears the message if it has been shown for `MESSAGE_SECS` seconds or
    /// more; does nothing if there is no message or it is younger.
    ///
    /// Whether it is old enough is read from the clock; the message either
    /// stays as it was or goes, and nothing else changes.
    pub fn maybe_clear_message(&mut self)
        ensures
            final(self).spec_message() == old(self).spec_message() || final(self).spec_message() is None,
            old(self).spec_message() is None ==> final(self).spec_message() is None,
            final(self).spec_clipboard() == old(self).spec_clipboard(),
            final(self).spec_height() == old(self).spec_height(),
            final(self).spec_width() == old(self).spec_width(),
            final(self).spec_top_line() == old(self).spec_top_line(),
            final(self).spec_left_col() == old(self).spec_left_col(),
            final(self).spec_cursor() == old(self).spec_cursor(),
            final(self).spec_threshold() == old(self).spec_threshold(),
    {
        proof {
            use_type_invariant(&*self);
        }
        if let Some((_message, time)) = &self.message {
            let secs = match elapsed(time) {
                Ok(d) => Some(as_secs(&d)),
                Err(_) => None,
            };
            self.clear_message_if_expired(secs);
        }
    }

    /// Clears the message when the clock reports that it has been shown for
    /// `elapsed_secs` seconds and that is `MESSAGE_SECS` or more (see
    /// `message_expired`); otherwise leaves it as it is.
    pub fn clear_message_if_expired(&mut self, elapsed_secs: Option<u64>)
        ensures
            final(self).spec_message() == (if old(self).spec_message() is Some && spec_message_expired(
                elapsed_secs,
            ) {
                None
            } else {
                old(self).spec_message()
            }),
            final(self).spec_clipboard() == old(self).spec_clipboard(),
            final(self).spec_height() == old(self).spec_height(),
            final(self).spec_width() == old(self).spec_width(),
            final(self).spec_top_line() == old(self).spec_top_line(),
            final(self).spec_left_col() == old(self).spec_left_col(),
            final(self).spec_cursor() == old(self).spec_cursor(),
            final(self).spec_threshold() == old(self).spec_threshold(),
    {
        proof {
            use_type_invariant(&*self);
        }
        if self.message.is_some() && View::message_expired(elapsed_secs) {
            self.message = None;
        }
    }

    /// Keeps the cursor on screen: shifts the view sideways (updating the
    /// first visible column) and says how to move the first visible line.
    ///
    /// `cursor` and `top` are the display coordinates (column, row) of the
    /// cursor and of the first visible line, as the buffer reports them.
    /// Without both, nothing changes.
    pub fn maybe_move_screen(&mut self, cursor: Option<(usize, usize)>, top: Option<(usize, usize)>) -> (op:
        Option<BufferOp>)
        requires
            (cursor, top) matches (Some(c), Some(t)) ==> {
                &&& old(self).spec_threshold() <= old(self).spec_width() <= max_extent()
                &&& old(self).spec_threshold() + 1 <= old(self).spec_height() <= max_extent()
                &&& c.0 <= max_extent() && c.1 <= max_extent() && t.1 <= max_extent()
            },
        ensures
            (cursor, top) matches (Some(c), Some(t)) ==> {
                &&& final(self).spec_left_col() == spec_scroll_left(
                    c.0 as int,
                    old(self).spec_left_col() as int,
                    old(self).spec_threshold() as int,
                    old(self).spec_width() as int,
                )
                &&& op == top_line_shift(
                    old(self).spec_top_line(),
                    spec_scroll_rows(
                        c.1 as int,
                        t.1 as int,
                        old(self).spec_threshold() as int,
                        old(self).spec_height() as int,
                    ),
                )
            },
            !((cursor, top) matches (Some(c), Some(t))) ==> final(self).spec_left_col() == old(
                self,
            ).spec_left_col() && op is None,
            final(self).spec_clipboard() == old(self).spec_clipboard(),
            final(self).spec_height() == old(self).spec_height(),
            final(self).spec_width() == old(self).spec_width(),
            final(self).spec_top_line() == old(self).spec_top_line(),
            final(self).spec_cursor() == old(self).spec_cursor(),
            final(self).spec_threshold() == old(self).spec_threshold(),
            final(self).spec_message() == old(self).spec_message(),
    {
        proof {
            use_type_invariant(&*self);
        }
        if let (Some(cursor), Some((_, top_line))) = (cursor, top) {
            let width = (self.get_width() - self.threshold) as isize;
            let height = (self.get_height() - self.threshold) as isize;
            let threshold = self.threshold as isize;

            // left-right shifting
            let x_offset = cursor.0 as isize - self.left_col as isize;
            let new_left: usize = if x_offset < threshold {
                let shifted = self.left_col as isize - (threshold - x_offset);
                if shifted > 0 {
                    shifted as usize
                } else {
                    0
                }
            } else if x_offset >= width {
                self.left_col + (x_offset - width + 1) as usize
            } else {
                self.left_col
            };
            self.left_col = new_left;

            // up-down shifting
            let y_offset = cursor.1 as isize - top_line as isize;
            if y_offset < threshold && top_line > 0 {
                let amount = (threshold - y_offset) as usize;
                let obj = TextObject {
                    kind: Kind::Line(Anchor::Same),
                    offset: Offset::Backward(amount, self.top_line),
                };
                Some(BufferOp::SetMarkToObject(self.top_line, obj))
            } else if y_offset >= height {
                let amount = (y_offset - height + 1) as usize;
                let obj = TextObject {
                    kind: Kind::Line(Anchor::Same),
                    offset: Offset::Forward(amount, self.top_line),
                };
                Some(BufferOp::SetMarkToObject(self.top_line, obj))
            } else {
                None
            }
        } else {
            None
        }
    }

    /// Deletes from `mark` to `object`, then leaves the mark at whichever of
    /// the two came first.
    ///
    /// `object_index` and `mark_index` are the character indices the buffer
    /// reports for the object and for the mark; without both, nothing is done.
    pub fn delete_from_mark_to_object(
        mark: Mark,
        object: TextObject,
        object_index: Option<usize>,
        mark_index: Option<usize>,
    ) -> (ops: Vec<BufferOp>)
        ensures
            ops@ == match (object_index, mark_index) {
                (Some(p), Some(m)) => seq![
                    BufferOp::RemoveFromMarkToObject(mark, object),
                    BufferOp::SetMark(mark, if p <= m { p } else { m }),
                ],
                _ => Seq::<BufferOp>::empty(),
            },
    {
        let mut ops: Vec<BufferOp> = Vec::new();
        if let Some(mark_pos) = object_index {
            if let Some(midx) = mark_index {
                ops.push(BufferOp::RemoveFromMarkToObject(mark, object));
                let at = if mark_pos <= midx {
                    mark_pos
                } else {
                    midx
                };
                ops.push(BufferOp::SetMark(mark, at));
            }
        }
        assert(ops@ =~= match (object_index, mark_index) {
            (Some(p), Some(m)) => seq![
                BufferOp::RemoveFromMarkToObject(mark, object),
                BufferOp::SetMark(mark, if p <= m { p } else { m }),
            ],
            _ => Seq::<BufferOp>::empty(),
        });
        ops
    }

    /// Deletes the selection (for now, the cursor's line): moves the cursor
    /// to the start of the selection, then deletes to its end.
    pub fn delete_selection() -> (steps: Vec<Step>)
        ensures
            steps@ == spec_delete_selection(),
    {
        let mut steps: Vec<Step> = Vec::new();
        steps.push(Step::MoveMark(Mark::Cursor(0), View::selection_start()));
        steps.push(Step::DeleteFromMarkToObject(Mark::Cursor(0), View::selection_end()));
        assert(steps@ =~= spec_delete_selection());
        steps
    }

    /// Copies the selected text `content`: it goes to the system clipboard
    /// when one is available (returned, for the caller to hand over), and into
    /// the view's own clipboard otherwise.
    pub fn copy_selection(&mut self, content: Vec<char>, system_clipboard: bool) -> (to_system: Option<
        Vec<char>,
    >)
        ensures
            system_clipboard ==> to_system == Some(content) && final(self).spec_clipboard() == old(
                self,
            ).spec_clipboard(),
            !system_clipboard ==> to_system is None && final(self).spec_clipboard() == content@,
            final(self).spec_height() == old(self).spec_height(),
            final(self).spec_width() == old(self).spec_width(),
            final(self).spec_top_line() == old(self).spec_top_line(),
            final(self).spec_left_col() == old(self).spec_left_col(),
            final(self).spec_cursor() == old(self).spec_cursor(),
            final(self).spec_threshold() == old(self).spec_threshold(),
            final(self).spec_message() == old(self).spec_message(),
    {
        proof {
            use_type_invariant(&*self);
        }
        if system_clipboard {
            Some(content)
        } else {
            self.clipboard = string_from_chars(&content);
            None
        }
    }

    /// Duplicates the selection: reads it, then inserts it at the cursor.
    pub fn duplicate_selection() -> (steps: Vec<Step>)
        ensures
            steps@ == seq![Step::TakeSelection, Step::InsertTaken],
    {
        let mut steps: Vec<Step> = Vec::new();
        steps.push(Step::TakeSelection);
        steps.push(Step::InsertTaken);
        assert(steps@ =~= seq![Step::TakeSelection, Step::InsertTaken]);
        steps
    }

    /// Cuts the selection: copies it, then deletes it.
    pub fn cut_selection() -> (steps: Vec<Step>)
        ensures
            steps@ == seq![Step::CopySelection] + spec_delete_selection(),
    {
        let mut steps: Vec<Step> = Vec::new();
        steps.push(Step::CopySelection);
        let mut delete = View::delete_selection();
        steps.append(&mut delete);
        assert(steps@ =~= seq![Step::CopySelection] + spec_delete_selection());
        steps
    }

    /// The text to paste. `system` is the system clipboard: `None` when there
    /// is none, `Some(None)` when it could not be read (nothing is pasted),
    /// `Some(Some(text))` when it held `text`. Without a system clipboard the
    /// view's own clipboard is pasted.
    pub fn paste(&self, system: Option<Option<String>>) -> (text: String)
        ensures
            text@ == match system {
                Some(Some(t)) => t@,
                Some(None) => Seq::<char>::empty(),
                None => self.spec_clipboard(),
            },
    {
        match system {
            Some(Some(t)) => t,
            Some(None) => String::new(),
            None => self.clipboard.clone(),
        }
    }

    /// Moves the selected line one line down (`down`) or up, by taking it out
    /// and inserting it again one line further.
    pub fn move_selection(down: bool) -> (steps: Vec<Step>)
        ensures
            steps@ == spec_move_selection(down),
    {
        let mut steps: Vec<Step> = Vec::new();
        let mut delete = View::delete_selection();
        if down {
            steps.push(
                Step::MoveMark(
                    Mark::Cursor(0),
                    TextObject { kind: Kind::Selection(Anchor::End), offset: Offset::Forward(0, Mark::Cursor(0)) },
                ),
            );
            steps.push(
                Step::MoveMark(
                    Mark::Cursor(0),
                    TextObject { kind: Kind::Char, offset: Offset::Forward(1, Mark::Cursor(0)) },
                ),
            );
            steps.push(Step::TakeSelection);
            steps.append(&mut delete);
            steps.push(
                Step::MoveMark(
                    Mark::Cursor(0),
                    TextObject {
                        kind: Kind::Selection(Anchor::Start),
                        offset: Offset::Backward(1, Mark::Cursor(0)),
                    },
                ),
            );
            steps.push(Step::InsertTaken);
        } else {
            steps.push(Step::TakeSelection);
            steps.append(&mut delete);
            steps.push(
                Step::MoveMark(
                    Mark::Cursor(0),
                    TextObject {
                        kind: Kind::Selection(Anchor::Start),
                        offset: Offset::Backward(1, Mark::Cursor(0)),
                    },
                ),
            );
            steps.push(Step::InsertTaken);
            steps.push(
                Step::MoveMark(
                    Mark::Cursor(0),
                    TextObject {
                        kind: Kind::Selection(Anchor::Start),
                        offset: Offset::Backward(1, Mark::Cursor(0)),
                    },
                ),
            );
        }
        assert(steps@ =~= spec_move_selection(down));
        steps
    }

    /// After text was inserted at the cursor: `inserted` is how many
    /// characters the buffer reports it inserted. When that is more than none,
    /// the cursor moves forward over them.
    pub fn insert_string(inserted: Option<usize>) -> (step: Option<Step>)
        requires
            inserted is Some,
        ensures
            step == (if inserted->0 > 0 {
                Some(
                    Step::MoveMark(
                        Mark::Cursor(0),
                        TextObject { kind: Kind::Char, offset: Offset::Forward(inserted->0, Mark::Cursor(0)) },
                    ),
                )
            } else {
                None
            }),
    {
        let len = inserted.unwrap();
        if len > 0 {
            let obj = TextObject { kind: Kind::Char, offset: Offset::Forward(len, Mark::Cursor(0)) };
            Some(Step::MoveMark(Mark::Cursor(0), obj))
        } else {
            None
        }
    }

    /// After an undo: `end_point` is where the undone transaction ended, if
    /// there was one to undo. The cursor goes there (then the screen follows
    /// with `maybe_move_screen`); with nothing undone, nothing moves.
    pub fn undo(&self, end_point: Option<usize>) -> (op: Option<BufferOp>)
        ensures
            op == match end_point {
                Some(p) => Some(BufferOp::SetMark(self.spec_cursor(), p)),
                None => None,
            },
    {
        match end_point {
            Some(point) => Some(BufferOp::SetMark(self.cursor, point)),
            None => None,
        }
    }

    /// After a redo: as `undo`, with the redone transaction's end point.
    pub fn redo(&self, end_point: Option<usize>) -> (op: Option<BufferOp>)
        ensures
            op == match end_point {
                Some(p) => Some(BufferOp::SetMark(self.spec_cursor(), p)),
                None => None,
            },
    {
        match end_point {
            Some(point) => Some(BufferOp::SetMark(self.cursor, point)),
            None => None,
        }
    }

    /// Whether the buffer is to be saved: only when it has a file name
    /// (`has_file_path`). Otherwise the view shows `NO_FILE_NAME_MESSAGE`.
    pub fn try_save_buffer(&mut self, has_file_path: bool) -> (save: bool)
        ensures
            save == has_file_path,
            has_file_path ==> final(self).spec_message() == old(self).spec_message(),
            !has_file_path ==> (final(self).spec_message() matches Some(m) && m.0 == NO_FILE_NAME_MESSAGE),
            final(self).spec_clipboard() == old(self).spec_clipboard(),
            final(self).spec_height() == old(self).spec_height(),
            final(self).spec_width() == old(self).spec_width(),
            final(self).spec_top_line() == old(self).spec_top_line(),
            final(self).spec_left_col() == old(self).spec_left_col(),
            final(self).spec_cursor() == old(self).spec_cursor(),
            final(self).spec_threshold() == old(self).spec_threshold(),
    {
        proof {
            use_type_invariant(&*self);
        }
        if has_file_path {
            true
        } else {
            self.message = Some((NO_FILE_NAME_MESSAGE, now()));
            false
        }
    }
}


/// After the view has kept the cursor on screen (`maybe_move_screen`), and the
/// buffer has moved the first visible line as asked (upwards it stops at the
/// first line), the terminal cursor lands inside the text area: within the
/// view's columns and above the lower margin, wherever the cursor stood before,
/// above the first visible line included. This holds whenever the view is
/// wider than its threshold and has more than twice its threshold rows of text.
pub proof fn lemma_cursor_drawn_on_screen(
    left_col: usize,
    threshold: usize,
    width: usize,
    height: usize,
    top: (usize, usize),
    cursor: (usize, usize),
)
    requires
        threshold < width <= max_extent(),
        2 * threshold < height - 1,
        height <= max_extent(),
        left_col <= max_extent() + 1,
        cursor.0 <= max_extent(),
        cursor.1 <= max_extent(),
    ensures
        ({
            let new_left = spec_scroll_left(
                cursor.0 as int,
                left_col as int,
                threshold as int,
                width as int,
            );
            let n = spec_scroll_rows(cursor.1 as int, top.1 as int, threshold as int, height as int);
            let new_top = if top.1 + n < 0 {
                0
            } else {
                top.1 + n
            };
            let drawn = spec_draw_cursor(new_left as usize, Some((top.0, new_top as usize)), Some(cursor));
            &&& drawn matches Some(p) && 0 <= p.0 < width && 0 <= p.1 < height - 1 - threshold
        }),
{
    crate::scroll::lemma_cursor_column_visible(
        cursor.0 as int,
        left_col as int,
        threshold as int,
        width as int,
    );
    crate::scroll::lemma_cursor_row_visible(
        cursor.1 as int,
        top.1 as int,
        threshold as int,
        height as int,
    );
}


/// The rows painted for the first `y` lines come first among those painted
/// for the first `rows` lines, unchanged.
proof fn lemma_text_rows_prefix(lines: Seq<String>, y: nat, rows: nat, left: int, rb_width: int)
    requires
        y <= rows,
    ensures
        text_rows(lines, y, left, rb_width).len() <= text_rows(lines, rows, left, rb_width).len(),
        forall|j: int|
            0 <= j < text_rows(lines, y, left, rb_width).len() ==> #[trigger] text_rows(
                lines,
                rows,
                left,
                rb_width,
            )[j] == text_rows(lines, y, left, rb_width)[j],
    decreases rows,
{
    if y < rows {
        lemma_text_rows_prefix(lines, y, (rows - 1) as nat, left, rb_width);
        let prev = text_rows(lines, (rows - 1) as nat, left, rb_width);
        let all = text_rows(lines, rows, left, rb_width);
        assert forall|j: int| 0 <= j < text_rows(lines, y, left, rb_width).len() implies #[trigger] all[j]
            == text_rows(lines, y, left, rb_width)[j] by {
            assert(all[j] == prev[j]);
        }
    }
}

/// A redraw shows each line scrolled sideways by the view's first visible
/// column: after the screen is cleared, text row `y` shows in column `i`
/// character `left_col + i` of line `y`. This holds for a line of printable
/// ASCII, for every column that the line reaches before the last one, on a
/// screen `rb_width` columns wide, whatever is painted after the text rows.
pub proof fn lemma_draw_shows_scrolled_lines(
    view: View,
    lines: Seq<String>,
    rb_width: int,
    after: Seq<Cell>,
    y: int,
    i: int,
)
    requires
        view.spec_height() >= 2,
        0 <= y < view.spec_height() - 2,
        y < lines.len(),
        2 <= rb_width,
        view.spec_left_col() <= lines[y]@.len(),
        forall|j: int| 0 <= j < lines[y]@.len() ==> is_plain(#[trigger] lines[y]@[j]),
        0 <= i < rb_width - 1,
        view.spec_left_col() + i < lines[y]@.len(),
    ensures
        ({
            let h = view.spec_height();
            let w = view.spec_width();
            let left = view.spec_left_col() as int;
            let frame = clear_rows(h as nat, w as nat) + text_rows(lines, (h - 2) as nat, left, rb_width)
                + after;
            exists|k: int|
                h * w <= k < frame.len() && #[trigger] frame[k] == text_cell(i, y, lines[y]@[left + i])
        }),
{
    let h = view.spec_height();
    let w = view.spec_width();
    let left = view.spec_left_col() as int;
    let rows = (h - 2) as nat;
    let clear = clear_rows(h as nat, w as nat);
    let text = text_rows(lines, rows, left, rb_width);
    let frame = clear + text + after;
    lemma_clear_grid(h as nat, w as nat);
    lemma_text_rows_prefix(lines, (y + 1) as nat, rows, left, rb_width);
    let before = text_rows(lines, y as nat, left, rb_width);
    let line = spec_draw_line(lines[y]@, y, left, rb_width);
    assert(text_rows(lines, (y + 1) as nat, left, rb_width) == before + line);
    lemma_draw_plain_line(lines[y]@, y, left, rb_width, i);
    let k = clear.len() + before.len() + i;
    assert(line.len() == spec_draw_line(lines[y]@, y, left, rb_width).len());
    assert(i < line.len());
    assert(text[before.len() + i] == (before + line)[before.len() + i]);
    assert(frame[k] == text[before.len() + i]);
    assert(frame[k] == text_cell(i, y, lines[y]@[left + i]));
}

} // verus!
