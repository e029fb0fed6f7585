use iota_view::render::{clear_cells, draw_line, draw_status_cells, status_text, Cell, Style};
use iota_view::view::View;

fn text(x: usize, y: usize, ch: char) -> Cell {
    Cell { x, y, ch, style: Style::Text }
}

fn row_chars(cells: &[Cell]) -> String {
    cells.iter().map(|c| c.ch).collect()
}

#[test]
fn draw_line_plain_text_is_verbatim_then_padded() {
    let cells = draw_line("abc", 2, 0, 6);
    // five text columns: a b c, two blanks, then the indicator in column 5
    assert_eq!(cells.len(), 6);
    assert_eq!(cells[0], text(0, 2, 'a'));
    assert_eq!(cells[1], text(1, 2, 'b'));
    assert_eq!(cells[2], text(2, 2, 'c'));
    assert_eq!(cells[3], text(3, 2, ' '));
    assert_eq!(cells[4], text(4, 2, ' '));
    assert_eq!(cells[5], text(5, 2, ' '));
}

#[test]
fn draw_line_long_line_shows_indicator() {
    let cells = draw_line("abcdefgh", 0, 0, 5);
    // width 4: a b c d, then the arrow at column 4
    assert_eq!(row_chars(&cells), "abcd→");
    assert_eq!(cells.last().unwrap(), &text(4, 0, '→'));
}

#[test]
fn draw_line_indicator_counts_bytes() {
    // "éé" is two characters but four bytes: longer than width 3 + left 0
    let cells = draw_line("éé", 0, 0, 4);
    assert_eq!(cells.last().unwrap().ch, '→');
    assert_eq!(cells[0], text(0, 0, 'é'));
    assert_eq!(cells[1], text(1, 0, 'é'));
}

#[test]
fn draw_line_scrolled_left() {
    let cells = draw_line("abcdef", 1, 2, 5);
    assert_eq!(row_chars(&cells), "cdef ");
    assert_eq!(cells[0], text(0, 1, 'c'));
}

#[test]
fn draw_line_left_past_end() {
    let cells = draw_line("ab", 0, 5, 4);
    assert_eq!(row_chars(&cells), "    ");
    assert_eq!(cells[0], text(0, 0, ' '));
}

#[test]
fn draw_line_tab_pads_to_multiple_of_four() {
    let cells = draw_line("a\tb", 0, 0, 10);
    // a at 0, tab fills 1..=3, b at 4, blanks 5..=8, indicator at 9
    assert_eq!(cells[0], text(0, 0, 'a'));
    assert_eq!(cells[1], text(1, 0, ' '));
    assert_eq!(cells[3], text(3, 0, ' '));
    assert_eq!(cells[4], text(4, 0, 'b'));
    assert_eq!(cells.len(), 10);
}

#[test]
fn draw_line_newline_prints_nothing() {
    let cells = draw_line("ab\n", 0, 0, 5);
    assert_eq!(row_chars(&cells), "ab   ");
    assert_eq!(cells[2], text(2, 0, ' '));
}

#[test]
fn draw_line_wide_character_takes_two_columns() {
    let cells = draw_line("中x", 0, 0, 6);
    assert_eq!(cells[0], text(0, 0, '中'));
    assert_eq!(cells[1], text(2, 0, 'x'));
    assert_eq!(cells[2], text(3, 0, ' '));
}

#[test]
fn draw_line_control_character_takes_one_column() {
    let cells = draw_line("\u{1}x", 0, 0, 4);
    assert_eq!(cells[0], text(0, 0, '\u{1}'));
    assert_eq!(cells[1], text(1, 0, 'x'));
}

#[test]
fn draw_line_tab_may_pass_the_last_column() {
    // width 2: the tab at column 0 prints four blanks, then drawing stops
    let cells = draw_line("\tz", 0, 0, 3);
    assert_eq!(cells.len(), 5);
    assert_eq!(cells[3], text(3, 0, ' '));
    assert_eq!(cells[4], text(2, 0, ' '));
}

#[test]
fn draw_line_one_column_screen_still_prints_first_character() {
    let cells = draw_line("ab", 0, 0, 1);
    assert_eq!(cells, vec![text(0, 0, 'a'), text(0, 0, '→')]);
}

#[test]
fn clear_fills_grid_row_by_row() {
    let cells = clear_cells(2, 3);
    assert_eq!(cells.len(), 6);
    for r in 0..2 {
        for c in 0..3 {
            assert_eq!(cells[r * 3 + c], text(c, r, ' '));
        }
    }
}

#[test]
fn clear_of_view_uses_its_size() {
    let (view, _) = View::new(4, 3);
    let cells = view.clear();
    assert_eq!(cells.len(), 12);
    assert!(cells.iter().all(|c| c.ch == ' ' && c.style == Style::Text));
}

#[test]
fn status_text_formats_coordinates_from_one() {
    let bytes = status_text("file.txt", Some((0, 0)));
    assert_eq!(String::from_utf8(bytes).unwrap(), "file.txt (1, 1)");
    let bytes = status_text("x", Some((1233, 9)));
    assert_eq!(String::from_utf8(bytes).unwrap(), "x (1234, 10)");
    let bytes = status_text("", None);
    assert_eq!(String::from_utf8(bytes).unwrap(), " (1, 1)");
}

#[test]
fn status_cells_bar_marker_and_message() {
    let bytes = status_text("ab", Some((2, 3)));
    let cells = draw_status_cells(&bytes, true, Some("hi"), 12, 4);
    // bar over 12 columns, then [*], then the message on the next row
    assert_eq!(cells.len(), 12 + 3 + 2);
    let bar: String = cells[..12].iter().map(|c| c.ch).collect();
    assert_eq!(bar, "ab (3, 4)   ");
    assert!(cells[..12].iter().all(|c| c.y == 4 && c.style == Style::StatusBar));
    let n = bytes.len();
    assert_eq!(cells[12], Cell { x: n + 1, y: 4, ch: '[', style: Style::Dirty });
    assert_eq!(cells[13], Cell { x: n + 2, y: 4, ch: '*', style: Style::Dirty });
    assert_eq!(cells[14], Cell { x: n + 3, y: 4, ch: ']', style: Style::Dirty });
    assert_eq!(cells[15], text(0, 5, 'h'));
    assert_eq!(cells[16], text(1, 5, 'i'));
}

#[test]
fn status_cells_show_bytes_not_characters() {
    // "é" is two UTF-8 bytes, each shown as the character of that code
    let bytes = status_text("é", None);
    let cells = draw_status_cells(&bytes, false, None, 3, 0);
    assert_eq!(cells[0].ch, 0xC3u8 as char);
    assert_eq!(cells[1].ch, 0xA9u8 as char);
    assert_eq!(cells[2].ch, ' ');
}

#[test]
fn status_cells_truncated_to_width() {
    let bytes = status_text("abcdef", None);
    let cells = draw_status_cells(&bytes, false, None, 3, 0);
    assert_eq!(row_chars(&cells), "abc");
}
