//! Screen cells: what the view paints, as plain values.
//!
//! Painting is described, not performed: each function returns the cells it
//! would print, in printing order, and the terminal layer prints them.

use vstd::prelude::*;
use vstd::std_specs::iter::IteratorSpec;
use vstd::utf8::encode_utf8;
use crate::width::{char_width, unicode_char_width};

verus! {

/// The colours a cell is printed in.
#[derive(Clone, Copy, Debug, PartialEq, Eq, Structural)]
pub enum Style {
    /// White on black: text, blanks and status messages.
    Text,
    /// Black on the status bar's blue.
    StatusBar,
    /// Black on red: the unsaved-changes marker.
    Dirty,
}

/// One character printed at one screen position.
#[derive(Clone, Copy, Debug, PartialEq, Eq, Structural)]
pub struct Cell {
    pub x: usize,
    pub y: usize,
    pub ch: char,
    pub style: Style,
}

pub open spec fn cell_at(x: int, y: int, ch: char, style: Style) -> Cell {
    Cell { x: x as usize, y: y as usize, ch, style }
}

pub open spec fn text_cell(x: int, y: int, ch: char) -> Cell {
    cell_at(x, y, ch, Style::Text)
}

/// `n` blanks on row `y`, from column `x` rightwards.
pub open spec fn blank_run(x: int, y: int, n: int) -> Seq<Cell> {
    Seq::new(n as nat, |i: int| text_cell(x + i, y, ' '))
}

/// How far the column moves after printing a character that is not a tab or
/// a newline: its display width, or one column when it has none. Below U+00A0
/// that is always one column (printable ASCII is one column wide, control
/// codes have no width).
pub open spec fn advance(c: char) -> int {
    if (c as u32) < 0xa0 {
        1
    } else {
        match unicode_char_width(c) {
            Some(w) => w as int,
            None => 1,
        }
    }
}

/// The cells printed for one character at column `x`, and the next column.
/// A tab pads with blanks to the next multiple of four; a newline prints nothing.
pub open spec fn glyph(c: char, x: int, y: int) -> (Seq<Cell>, int) {
    if c == '\t' {
        let w = 4 - x % 4;
        (blank_run(x, y, w), x + w)
    } else if c == '\n' {
        (seq![], x)
    } else {
        (seq![text_cell(x, y, c)], x + advance(c))
    }
}

/// Prints `chars` from column `x` until they run out or the column reaches
/// `width`; returns the cells and the column reached.
pub open spec fn line_run(chars: Seq<char>, x: int, y: int, width: int) -> (Seq<Cell>, int)
    decreases chars.len(),
{
    if chars.len() == 0 {
        (seq![], x)
    } else {
        let g = glyph(chars[0], x, y);
        if g.1 >= width {
            g
        } else {
            let rest = line_run(chars.drop_first(), g.1, y, width);
            (g.0 + rest.0, rest.1)
        }
    }
}

/// The characters of a line after the first `left` of them.
pub open spec fn visible_from(chars: Seq<char>, left: int) -> Seq<char> {
    if left <= chars.len() {
        chars.skip(left)
    } else {
        seq![]
    }
}

/// The length of a string in UTF-8 bytes, as `str::len` reports it.
pub open spec fn byte_len(line: Seq<char>) -> int {
    (encode_utf8(line).len() as usize) as int
}

/// The last column of a row of a screen `rb_width` wide holds this: an arrow
/// when the line, counted in UTF-8 bytes, is longer than what fits.
pub open spec fn overflow_indicator(line: Seq<char>, left: int, rb_width: int) -> char {
    if byte_len(line) > rb_width - 1 + left {
        '→'
    } else {
        ' '
    }
}

/// The cells that drawing `line` on row `y`, scrolled `left` characters to the
/// right, prints on a screen `rb_width` columns wide: the visible text, blanks
/// up to the last column, then the overflow indicator in the last column.
pub open spec fn spec_draw_line(line: Seq<char>, y: int, left: int, rb_width: int) -> Seq<Cell> {
    let width = rb_width - 1;
    let run = line_run(visible_from(line, left), 0, y, width);
    let fill = if run.1 < width {
        blank_run(run.1, y, width - run.1)
    } else {
        seq![]
    };
    run.0 + fill + seq![text_cell(width, y, overflow_indicator(line, left, rb_width))]
}

/// The cells for one character at column `x` (see `glyph`), appended to `cells`;
/// returns the next column.
fn push_glyph(cells: &mut Vec<Cell>, c: char, x: usize, y: usize) -> (nx: usize)
    requires
        x + 4 <= usize::MAX,
    ensures
        final(cells)@ == old(cells)@ + glyph(c, x as int, y as int).0,
        nx == glyph(c, x as int, y as int).1,
        nx <= x + 4,
{
    if c == '\t' {
        let w = 4 - x % 4;
        let ghost start = cells@;
        let mut i: usize = 0;
        while i < w
            invariant
                i <= w,
                w == 4 - x % 4,
                x + 4 <= usize::MAX,
                cells@ =~= start + blank_run(x as int, y as int, i as int),
            decreases w - i,
        {
            cells.push(Cell { x: x + i, y, ch: ' ', style: Style::Text });
            i = i + 1;
        }
        x + w
    } else if c == '\n' {
        assert(cells@ =~= old(cells)@ + seq![]);
        x
    } else {
        cells.push(Cell { x, y, ch: c, style: Style::Text });
        let w = char_width(c);
        match w {
            Some(w) => x + w,
            None => x + 1,
        }
    }
}

/// Draws one line of text on row `idx` of a screen `rb_width` columns wide,
/// skipping its first `left` characters; returns the cells in printing order.
pub fn draw_line(line: &str, idx: usize, left: usize, rb_width: usize) -> (cells: Vec<Cell>)
    requires
        1 <= rb_width,
        rb_width + 4 <= usize::MAX,
        rb_width - 1 + left <= usize::MAX,
    ensures
        cells@ == spec_draw_line(line@, idx as int, left as int, rb_width as int),
{
    let width = rb_width - 1;
    let mut x: usize = 0;
    let mut cells: Vec<Cell> = Vec::new();
    let mut chars = line.chars();
    let mut seen: usize = 0;
    let ghost k: int = 0;
    let ghost vis = visible_from(line@, left as int);
    assert(line@.skip(0) =~= line@);
    loop
        invariant_except_break
            0 <= k <= line@.len(),
            chars.remaining() == line@.skip(k),
            k < left ==> (seen == k && x == 0 && cells@ == Seq::<Cell>::empty()),
            k >= left ==> seen == left,
            k >= left ==> vis =~= (if left <= line@.len() { line@.skip(left as int) } else { seq![] }),
            k >= left ==> line@.skip(k) =~= vis.skip(k - left),
            k >= left ==> line_run(vis, 0, idx as int, width as int) == (
                cells@ + line_run(line@.skip(k), x as int, idx as int, width as int).0,
                line_run(line@.skip(k), x as int, idx as int, width as int).1,
            ),
            x == 0 || x < width,
        invariant
            width == rb_width - 1,
            rb_width + 4 <= usize::MAX,
            vis == visible_from(line@, left as int),
        ensures
            line_run(vis, 0, idx as int, width as int) == (cells@, x as int),
        decreases line@.len() - k,
    {
        let next = chars.next();
        match next {
            None => {
                assert(line@.skip(k).len() == 0);
                proof {
                    if k < left {
                        assert(vis =~= Seq::<char>::empty());
                    }
                }
                break;
            },
            Some(c) => {
                assert(c == line@[k]);
                if seen < left {
                    seen = seen + 1;
                    proof {
                        k = k + 1;
                        if k == left {
                            assert(line@.skip(k) =~= vis.skip(0));
                        }
                    }
                } else {
                    let ghost rest = line@.skip(k);
                    let ghost pre = cells@;
                    assert(rest[0] == c);
                    assert(rest.drop_first() =~= line@.skip(k + 1));
                    x = push_glyph(&mut cells, c, x, idx);
                    proof {
                        k = k + 1;
                        assert(line@.skip(k) =~= vis.skip(k - left));
                    }
                    if x >= width {
                        break;
                    }
                }
            },
        }
    }
    let ghost run_cells = cells@;
    let ghost run_end = x as int;
    while x < width
        invariant
            run_end <= x,
            x <= width || x == run_end,
            run_end < width ==> cells@ =~= run_cells + blank_run(run_end, idx as int, x - run_end),
            run_end >= width ==> cells@ == run_cells,
        decreases width - x,
    {
        cells.push(Cell { x, y: idx, ch: ' ', style: Style::Text });
        x = x + 1;
    }
    let indicator = if line.len() > width + left {
        '→'
    } else {
        ' '
    };
    cells.push(Cell { x: width, y: idx, ch: indicator, style: Style::Text });
    cells
}


/// The decimal digits of `n`, as ASCII bytes, without leading zeros.
pub open spec fn decimal(n: nat) -> Seq<u8>
    decreases n,
{
    if n < 10 {
        seq![('0' as u8 + n) as u8]
    } else {
        decimal(n / 10) + seq![('0' as u8 + n % 10) as u8]
    }
}

/// Appends the decimal digits of `n` to `out`.
fn push_decimal(out: &mut Vec<u8>, n: usize)
    ensures
        final(out)@ == old(out)@ + decimal(n as nat),
    decreases n,
{
    if n >= 10 {
        push_decimal(out, n / 10);
    }
    let digit: u8 = (n % 10) as u8;
    out.push('0' as u8 + digit);
    assert(final(out)@ =~= old(out)@ + decimal(n as nat));
}

/// The status line's text: the buffer's status, then the cursor's column and
/// row counted from one, as in `status (3, 7)`; UTF-8 encoded. Without cursor
/// coordinates the cursor counts as standing at the origin.
pub open spec fn status_bytes(buffer_status: Seq<char>, cursor: Option<(usize, usize)>) -> Seq<u8> {
    let c = match cursor {
        Some(c) => c,
        None => (0usize, 0usize),
    };
    encode_utf8(buffer_status) + seq![' ' as u8, '(' as u8] + decimal((c.0 + 1) as nat) + seq![
        ',' as u8,
        ' ' as u8,
    ] + decimal((c.1 + 1) as nat) + seq![')' as u8]
}

/// The cells of the status area: on row `row`, the status text over the whole
/// width (each byte shown as the character of that code, blanks after the
/// text), then `[*]` one column after the text when the buffer is dirty, then
/// the message, if any, on the row below.
pub open spec fn spec_draw_status(
    bytes: Seq<u8>,
    dirty: bool,
    message: Option<Seq<char>>,
    width: int,
    row: int,
) -> Seq<Cell> {
    let bar = Seq::new(
        width as nat,
        |i: int|
            cell_at(i, row, if i < bytes.len() { bytes[i] as char } else { ' ' }, Style::StatusBar),
    );
    let marker = if dirty {
        seq!['[', '*', ']'].map(|i: int, c: char| cell_at(bytes.len() + i + 1, row, c, Style::Dirty))
    } else {
        seq![]
    };
    let msg = match message {
        Some(m) => m.map(|i: int, c: char| text_cell(i, row + 1, c)),
        None => seq![],
    };
    bar + marker + msg
}

/// Builds the status line's text (see `status_bytes`).
pub fn status_text(buffer_status: &str, cursor: Option<(usize, usize)>) -> (bytes: Vec<u8>)
    requires
        cursor matches Some(c) ==> c.0 < usize::MAX && c.1 < usize::MAX,
    ensures
        bytes@ == status_bytes(buffer_status@, cursor),
{
    let (cx, cy) = match cursor {
        Some(c) => c,
        None => (0, 0),
    };
    let raw = buffer_status.as_bytes();
    let mut bytes: Vec<u8> = Vec::new();
    let mut i: usize = 0;
    while i < raw.len()
        invariant
            i <= raw@.len(),
            bytes@ =~= raw@.subrange(0, i as int),
        decreases raw@.len() - i,
    {
        bytes.push(raw[i]);
        i = i + 1;
    }
    bytes.push(' ' as u8);
    bytes.push('(' as u8);
    push_decimal(&mut bytes, cx + 1);
    bytes.push(',' as u8);
    bytes.push(' ' as u8);
    push_decimal(&mut bytes, cy + 1);
    bytes.push(')' as u8);
    assert(bytes@ =~= status_bytes(buffer_status@, cursor));
    bytes
}

/// Paints the status area (see `spec_draw_status`) from its text, on row `row`
/// of a view `width` columns wide.
pub fn draw_status_cells(
    bytes: &Vec<u8>,
    dirty: bool,
    message: Option<&str>,
    width: usize,
    row: usize,
) -> (cells: Vec<Cell>)
    requires
        row < usize::MAX,
        dirty ==> bytes@.len() + 4 <= usize::MAX,
        message matches Some(m) ==> m@.len() <= usize::MAX,
    ensures
        cells@ == spec_draw_status(
            bytes@,
            dirty,
            match message {
                Some(m) => Some(m@),
                None => None,
            },
            width as int,
            row as int,
        ),
{
    let ghost msg = match message {
        Some(m) => Some(m@),
        None => None,
    };
    let ghost spec = spec_draw_status(bytes@, dirty, msg, width as int, row as int);
    let n = bytes.len();
    let mut cells: Vec<Cell> = Vec::new();
    let mut index: usize = 0;
    while index < width
        invariant
            index <= width,
            n == bytes@.len(),
            cells@ =~= spec.subrange(0, index as int),
            spec == spec_draw_status(bytes@, dirty, msg, width as int, row as int),
        decreases width - index,
    {
        let ch: char = if index < n {
            bytes[index] as char
        } else {
            ' '
        };
        cells.push(Cell { x: index, y: row, ch, style: Style::StatusBar });
        index = index + 1;
    }
    let ghost bar = cells@;
    if dirty {
        cells.push(Cell { x: n + 1, y: row, ch: '[', style: Style::Dirty });
        cells.push(Cell { x: n + 2, y: row, ch: '*', style: Style::Dirty });
        cells.push(Cell { x: n + 3, y: row, ch: ']', style: Style::Dirty });
    }
    let ghost marked = cells@;
    assert(marked =~= spec.subrange(0, marked.len() as int));
    match message {
        Some(m) => {
            let mut chars = m.chars();
            let mut offset: usize = 0;
            assert(m@.skip(0) =~= m@);
            loop
                invariant_except_break
                    offset <= m@.len(),
                    chars.remaining() == m@.skip(offset as int),
                    cells@ =~= marked + m@.subrange(0, offset as int).map(
                        |i: int, c: char| text_cell(i, row + 1, c),
                    ),
                invariant
                    m@.len() <= usize::MAX,
                    row < usize::MAX,
                ensures
                    cells@ =~= marked + m@.map(|i: int, c: char| text_cell(i, row + 1, c)),
                decreases m@.len() - offset,
            {
                let next = chars.next();
                match next {
                    None => {
                        assert(m@.subrange(0, offset as int) =~= m@);
                        break;
                    },
                    Some(c) => {
                        assert(c == m@[offset as int]);
                        cells.push(Cell { x: offset, y: row + 1, ch: c, style: Style::Text });
                        assert(m@.skip(offset as int).drop_first() =~= m@.skip(offset + 1));
                        assert(m@.subrange(0, offset + 1).map(
                            |i: int, c: char| text_cell(i, row + 1, c),
                        ) =~= m@.subrange(0, offset as int).map(
                            |i: int, c: char| text_cell(i, row + 1, c),
                        ).push(text_cell(offset as int, row + 1, c)));
                        offset = offset + 1;
                    },
                }
            }
        },
        None => {},
    }
    assert(cells@ =~= spec);
    cells
}

/// Blanks over `rows` whole rows of `width` columns, row by row.
pub open spec fn clear_rows(rows: nat, width: nat) -> Seq<Cell>
    decreases rows,
{
    if rows == 0 {
        seq![]
    } else {
        clear_rows((rows - 1) as nat, width) + blank_run(0, rows - 1, width as int)
    }
}

/// Fills `height` rows of `width` columns with blanks.
pub fn clear_cells(height: usize, width: usize) -> (cells: Vec<Cell>)
    ensures
        cells@ == clear_rows(height as nat, width as nat),
{
    let mut cells: Vec<Cell> = Vec::new();
    let mut row: usize = 0;
    while row < height
        invariant
            row <= height,
            cells@ == clear_rows(row as nat, width as nat),
        decreases height - row,
    {
        let ghost start = cells@;
        let mut col: usize = 0;
        while col < width
            invariant
                col <= width,
                row < height,
                cells@ =~= start + blank_run(0, row as int, col as int),
            decreases width - col,
        {
            cells.push(Cell { x: col, y: row, ch: ' ', style: Style::Text });
            col = col + 1;
        }
        row = row + 1;
    }
    cells
}


/// A character that prints as itself in one column: printable ASCII.
pub open spec fn is_plain(c: char) -> bool {
    0x20 <= (c as u32) && (c as u32) < 0x7f
}

/// Every cell that printing a run of characters produces lies on its row.
pub proof fn lemma_line_run_on_row(chars: Seq<char>, x: int, y: int, width: int)
    ensures
        forall|i: int|
            0 <= i < line_run(chars, x, y, width).0.len() ==> (#[trigger] line_run(
                chars,
                x,
                y,
                width,
            ).0[i]).y == y as usize,
    decreases chars.len(),
{
    if chars.len() > 0 {
        let g = glyph(chars[0], x, y);
        if g.1 < width {
            lemma_line_run_on_row(chars.drop_first(), g.1, y, width);
            let rest = line_run(chars.drop_first(), g.1, y, width);
            assert forall|i: int| 0 <= i < (g.0 + rest.0).len() implies (#[trigger] (g.0
                + rest.0)[i]).y == y as usize by {
                if i >= g.0.len() {
                    assert((g.0 + rest.0)[i] == rest.0[i - g.0.len()]);
                }
            }
        }
    }
}

/// Drawing a line paints only its own row, and its last cell is the overflow
/// indicator in the last column of the screen.
pub proof fn lemma_draw_line_shape(line: Seq<char>, y: int, left: int, rb_width: int)
    requires
        0 <= y <= usize::MAX,
    ensures
        forall|i: int|
            0 <= i < spec_draw_line(line, y, left, rb_width).len() ==> (#[trigger] spec_draw_line(
                line,
                y,
                left,
                rb_width,
            )[i]).y == y as usize,
        spec_draw_line(line, y, left, rb_width).last() == text_cell(
            rb_width - 1,
            y,
            overflow_indicator(line, left, rb_width),
        ),
{
    let width = rb_width - 1;
    let run = line_run(visible_from(line, left), 0, y, width);
    lemma_line_run_on_row(visible_from(line, left), 0, y, width);
    let fill = if run.1 < width {
        blank_run(run.1, y, width - run.1)
    } else {
        seq![]
    };
    let all = spec_draw_line(line, y, left, rb_width);
    assert(all == run.0 + fill + seq![text_cell(width, y, overflow_indicator(line, left, rb_width))]);
    assert forall|i: int| 0 <= i < all.len() implies (#[trigger] all[i]).y == y as usize by {
        if i < run.0.len() {
            assert(all[i] == run.0[i]);
        } else if i < run.0.len() + fill.len() {
            assert(all[i] == fill[i - run.0.len()]);
        }
    }
}

/// Printable ASCII prints verbatim: from column `x`, character `i` of the run
/// lands in column `x + i`, until the run is spent or reaches `width`.
pub proof fn lemma_plain_run(chars: Seq<char>, x: int, y: int, width: int)
    requires
        0 <= x < width,
        forall|i: int| 0 <= i < chars.len() ==> is_plain(#[trigger] chars[i]),
    ensures
        ({
            let n = if chars.len() <= width - x {
                chars.len() as int
            } else {
                width - x
            };
            &&& line_run(chars, x, y, width).0.len() == n
            &&& line_run(chars, x, y, width).1 == x + n
            &&& forall|i: int|
                0 <= i < n ==> #[trigger] line_run(chars, x, y, width).0[i] == text_cell(
                    x + i,
                    y,
                    chars[i],
                )
        }),
    decreases chars.len(),
{
    if chars.len() > 0 {
        let c = chars[0];
        assert(is_plain(c));
        assert(c != '\t' && c != '\n') by {
            assert(('\t' as u32) == 9);
            assert(('\n' as u32) == 10);
        }
        let g = glyph(c, x, y);
        assert(g.1 == x + 1);
        if g.1 < width {
            let tail = chars.drop_first();
            assert forall|i: int| 0 <= i < tail.len() implies is_plain(#[trigger] tail[i]) by {
                assert(tail[i] == chars[i + 1]);
            }
            lemma_plain_run(tail, x + 1, y, width);
            let rest = line_run(tail, x + 1, y, width);
            let all = line_run(chars, x, y, width);
            assert(all.0 == g.0 + rest.0);
            let n = if chars.len() <= width - x {
                chars.len() as int
            } else {
                width - x
            };
            assert forall|i: int| 0 <= i < n implies #[trigger] all.0[i] == text_cell(x + i, y, chars[i]) by {
                if i > 0 {
                    assert(all.0[i] == rest.0[i - 1]);
                    assert(tail[i - 1] == chars[i]);
                }
            }
        }
    }
}

/// A line of printable ASCII is drawn verbatim: with the view scrolled `left`
/// characters, column `i` of the row shows character `left + i` of the line,
/// for every column the line reaches before the last one.
pub proof fn lemma_draw_plain_line(line: Seq<char>, y: int, left: int, rb_width: int, i: int)
    requires
        2 <= rb_width,
        0 <= left <= line.len(),
        forall|j: int| 0 <= j < line.len() ==> is_plain(#[trigger] line[j]),
        0 <= i < rb_width - 1,
        left + i < line.len(),
    ensures
        i < spec_draw_line(line, y, left, rb_width).len(),
        spec_draw_line(line, y, left, rb_width)[i] == text_cell(i, y, line[left + i]),
{
    let vis = visible_from(line, left);
    assert(vis == line.skip(left));
    assert forall|j: int| 0 <= j < vis.len() implies is_plain(#[trigger] vis[j]) by {
        assert(vis[j] == line[left + j]);
    }
    lemma_plain_run(vis, 0, y, rb_width - 1);
    assert(vis[i] == line[left + i]);
}

/// Clearing `rows` rows of `width` columns paints each cell exactly once, row
/// by row: the cell of column `c` on row `r` comes at position `r * width + c`.
pub proof fn lemma_clear_grid(rows: nat, width: nat)
    ensures
        clear_rows(rows, width).len() == rows * width,
        forall|r: int, c: int|
            0 <= r < rows && 0 <= c < width ==> #[trigger] clear_rows(rows, width)[r * width + c]
                == text_cell(c, r, ' '),
    decreases rows,
{
    if rows > 0 {
        let prev = clear_rows((rows - 1) as nat, width);
        lemma_clear_grid((rows - 1) as nat, width);
        assert((rows - 1) * width + width == rows * width) by (nonlinear_arith);
        assert forall|r: int, c: int| 0 <= r < rows && 0 <= c < width implies #[trigger] clear_rows(
            rows,
            width,
        )[r * width + c] == text_cell(c, r, ' ') by {
            if r < rows - 1 {
                assert(r * width + c < (rows - 1) * width) by (nonlinear_arith)
                    requires
                        0 <= r < rows - 1,
                        0 <= c < width,
                ;
                assert(0 <= r * width) by (nonlinear_arith)
                    requires
                        0 <= r,
                        0 <= width,
                ;
            } else {
                assert(r * width == (rows - 1) * width);
            }
        }
    }
}

/// The decimal digits of a number are ASCII digits, and only zero starts
/// with the digit zero.
pub proof fn lemma_decimal_digits(n: nat)
    ensures
        decimal(n).len() >= 1,
        forall|i: int| 0 <= i < decimal(n).len() ==> '0' as u8 <= #[trigger] decimal(n)[i] <= '9' as u8,
        decimal(n)[0] == '0' as u8 <==> n == 0,
    decreases n,
{
    if n >= 10 {
        lemma_decimal_digits(n / 10);
    }
}


/// A tab moves the column to the next tab stop: the least multiple of four
/// greater than the column it starts at (a multiple of four, past the start,
/// at most four columns on, so no other multiple of four lies between), and
/// prints blanks over every column from where it starts up to that stop.
pub proof fn lemma_tab_to_next_stop(x: int, y: int)
    requires
        0 <= x,
    ensures
        glyph('\t', x, y).1 % 4 == 0,
        x < glyph('\t', x, y).1 <= x + 4,
        glyph('\t', x, y).0.len() == glyph('\t', x, y).1 - x,
        forall|i: int|
            0 <= i < glyph('\t', x, y).1 - x ==> #[trigger] glyph('\t', x, y).0[i] == text_cell(
                x + i,
                y,
                ' ',
            ),
{
}

} // verus!
