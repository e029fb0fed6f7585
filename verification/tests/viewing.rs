use iota_view::render::{Cell, Style};
use iota_view::text_object::{Anchor, Kind, Mark, Offset, TextObject};
use iota_view::view::{BufferOp, Step, View, MESSAGE_SECS, NO_FILE_NAME_MESSAGE};

fn top_line_op(offset: Offset) -> Option<BufferOp> {
    Some(BufferOp::SetMarkToObject(
        Mark::DisplayMark(0),
        TextObject { kind: Kind::Line(Anchor::Same), offset },
    ))
}

/// The first visible column, read back through where the terminal cursor goes.
fn left_col(view: &View) -> usize {
    let (x, _) = view.draw_cursor(Some((0, 0)), Some((1_000, 0))).unwrap();
    1_000 - x as usize
}

fn message_row(view: &View) -> String {
    let cells = view.draw_status("", None, false);
    cells
        .iter()
        .filter(|c| c.y == view.get_height())
        .map(|c| c.ch)
        .collect()
}

#[test]
fn new_view_sets_marks_to_start() {
    let (view, ops) = View::new(50, 50);
    assert_eq!(
        ops,
        vec![BufferOp::SetMark(Mark::Cursor(0), 0), BufferOp::SetMark(Mark::DisplayMark(0), 0)]
    );
    assert_eq!(view.get_width(), 50);
    assert_eq!(view.get_height(), 49);
    assert_eq!(left_col(&view), 0);
}

#[test]
fn resize_changes_size() {
    let (mut view, _) = View::new(10, 10);
    view.resize(30, 20);
    assert_eq!(view.get_width(), 30);
    assert_eq!(view.get_height(), 19);
}

#[test]
fn selection_objects() {
    assert_eq!(
        View::selection_start(),
        TextObject { kind: Kind::Line(Anchor::Start), offset: Offset::Backward(0, Mark::Cursor(0)) }
    );
    assert_eq!(
        View::selection_end(),
        TextObject { kind: Kind::Line(Anchor::Same), offset: Offset::Forward(1, Mark::Cursor(0)) }
    );
}

#[test]
fn screen_stays_when_cursor_is_comfortable() {
    let (mut view, _) = View::new(40, 20);
    let op = view.maybe_move_screen(Some((10, 10)), Some((0, 0)));
    assert_eq!(op, None);
    assert_eq!(left_col(&view), 0);
}

#[test]
fn screen_shifts_right_when_cursor_nears_right_edge() {
    let (mut view, _) = View::new(40, 20);
    // room = 40 - 5 = 35: the cursor at 50 leaves the first visible column at 16
    let op = view.maybe_move_screen(Some((50, 10)), Some((0, 0)));
    assert_eq!(op, None);
    assert_eq!(left_col(&view), 16);
    // the cursor is then one column before the right margin, and stays there
    let op = view.maybe_move_screen(Some((50, 10)), Some((0, 0)));
    assert_eq!(op, None);
    assert_eq!(left_col(&view), 16);
}

#[test]
fn screen_shifts_left_when_cursor_nears_left_edge() {
    let (mut view, _) = View::new(40, 20);
    view.maybe_move_screen(Some((50, 10)), Some((0, 0)));
    view.maybe_move_screen(Some((18, 10)), Some((0, 0)));
    assert_eq!(left_col(&view), 13);
    view.maybe_move_screen(Some((2, 10)), Some((0, 0)));
    assert_eq!(left_col(&view), 0);
}

#[test]
fn screen_scrolls_down_when_cursor_nears_bottom() {
    let (mut view, _) = View::new(40, 20);
    // text rows room = 19 - 5 = 14: the cursor on row 20 asks for 7 lines down
    let op = view.maybe_move_screen(Some((0, 20)), Some((0, 0)));
    assert_eq!(op, top_line_op(Offset::Forward(7, Mark::DisplayMark(0))));
}

#[test]
fn screen_scrolls_up_when_cursor_nears_top() {
    let (mut view, _) = View::new(40, 20);
    let op = view.maybe_move_screen(Some((0, 12)), Some((0, 10)));
    assert_eq!(op, top_line_op(Offset::Backward(3, Mark::DisplayMark(0))));
}

#[test]
fn screen_does_not_scroll_up_at_first_line() {
    let (mut view, _) = View::new(40, 20);
    let op = view.maybe_move_screen(Some((0, 2)), Some((0, 0)));
    assert_eq!(op, None);
}

#[test]
fn screen_unchanged_without_coordinates() {
    let (mut view, _) = View::new(40, 20);
    assert_eq!(view.maybe_move_screen(None, Some((0, 0))), None);
    assert_eq!(view.maybe_move_screen(Some((99, 99)), None), None);
    assert_eq!(left_col(&view), 0);
}

#[test]
fn cursor_after_scroll_is_on_screen() {
    // concrete instance of the on-screen law
    let (mut view, _) = View::new(30, 24);
    for &(cx, cy, top) in &[(0usize, 0usize, 0usize), (100, 3, 0), (7, 50, 10), (29, 40, 39)] {
        let op = view.maybe_move_screen(Some((cx, cy)), Some((0, top)));
        let new_top = match op {
            Some(BufferOp::SetMarkToObject(_, TextObject { offset: Offset::Forward(n, _), .. })) => top + n,
            Some(BufferOp::SetMarkToObject(_, TextObject { offset: Offset::Backward(n, _), .. })) => {
                top.saturating_sub(n)
            }
            _ => top,
        };
        let (x, y) = view.draw_cursor(Some((0, new_top)), Some((cx, cy))).unwrap();
        assert!(0 <= x && (x as usize) < 30);
        assert!(0 <= y && (y as usize) < 24 - 1 - 5);
    }
}

#[test]
fn draw_cursor_relative_to_view() {
    let (view, _) = View::new(40, 20);
    assert_eq!(view.draw_cursor(Some((0, 3)), Some((7, 5))), Some((7, 2)));
    assert_eq!(view.draw_cursor(None, Some((7, 5))), None);
    assert_eq!(view.draw_cursor(Some((0, 3)), None), None);
}

#[test]
fn draw_composes_clear_lines_status() {
    let (view, _) = View::new(6, 4);
    let lines = vec![String::from("hi\n")];
    let frame = view.draw(&lines, 6, "st", Some((1, 0)), Some((0, 0)), false);
    // clear 6x4, two text rows of 6 cells, then a status bar of 6
    assert_eq!(frame.cells.len(), 24 + 12 + 6);
    let row0: String = frame.cells[24..30].iter().map(|c| c.ch).collect();
    assert_eq!(row0, "hi    ");
    let row1: String = frame.cells[30..36].iter().map(|c| c.ch).collect();
    assert_eq!(row1, "      ");
    assert!(frame.cells[30..36].iter().all(|c| c.y == 1));
    let bar: String = frame.cells[36..].iter().map(|c| c.ch).collect();
    assert_eq!(bar, "st (2,");
    assert!(frame.cells[36..].iter().all(|c| c.y == 2 && c.style == Style::StatusBar));
    assert_eq!(frame.cursor, Some((1, 0)));
}

#[test]
fn message_shown_then_kept_while_young() {
    let (mut view, _) = View::new(20, 5);
    view.show_message("saved");
    view.maybe_clear_message();
    assert_eq!(message_row(&view), "saved");
}

#[test]
fn message_expiry_rule() {
    assert!(!View::message_expired(None));
    assert!(!View::message_expired(Some(MESSAGE_SECS - 1)));
    assert!(View::message_expired(Some(MESSAGE_SECS)));
    assert!(View::message_expired(Some(60)));
}

#[test]
fn no_message_row_without_message() {
    let (view, _) = View::new(20, 5);
    let cells = view.draw_status("x", None, false);
    assert_eq!(cells.len(), 20);
    assert!(cells.iter().all(|c: &Cell| c.y == 3));
}

#[test]
fn delete_from_mark_leaves_mark_at_earlier_index() {
    let obj = View::selection_end();
    let ops = View::delete_from_mark_to_object(Mark::Cursor(0), obj, Some(12), Some(4));
    assert_eq!(
        ops,
        vec![
            BufferOp::RemoveFromMarkToObject(Mark::Cursor(0), obj),
            BufferOp::SetMark(Mark::Cursor(0), 4)
        ]
    );
    let ops = View::delete_from_mark_to_object(Mark::Cursor(0), obj, Some(2), Some(4));
    assert_eq!(ops[1], BufferOp::SetMark(Mark::Cursor(0), 2));
    assert!(View::delete_from_mark_to_object(Mark::Cursor(0), obj, None, Some(4)).is_empty());
    assert!(View::delete_from_mark_to_object(Mark::Cursor(0), obj, Some(1), None).is_empty());
}

#[test]
fn delete_selection_steps() {
    assert_eq!(
        View::delete_selection(),
        vec![
            Step::MoveMark(Mark::Cursor(0), View::selection_start()),
            Step::DeleteFromMarkToObject(Mark::Cursor(0), View::selection_end()),
        ]
    );
}

#[test]
fn cut_is_copy_then_delete() {
    let mut expected = vec![Step::CopySelection];
    expected.extend(View::delete_selection());
    assert_eq!(View::cut_selection(), expected);
}

#[test]
fn duplicate_steps() {
    assert_eq!(View::duplicate_selection(), vec![Step::TakeSelection, Step::InsertTaken]);
}

#[test]
fn move_selection_steps() {
    let prev = Step::MoveMark(
        Mark::Cursor(0),
        TextObject { kind: Kind::Selection(Anchor::Start), offset: Offset::Backward(1, Mark::Cursor(0)) },
    );
    let mut down = vec![
        Step::MoveMark(
            Mark::Cursor(0),
            TextObject { kind: Kind::Selection(Anchor::End), offset: Offset::Forward(0, Mark::Cursor(0)) },
        ),
        Step::MoveMark(
            Mark::Cursor(0),
            TextObject { kind: Kind::Char, offset: Offset::Forward(1, Mark::Cursor(0)) },
        ),
        Step::TakeSelection,
    ];
    down.extend(View::delete_selection());
    down.push(prev);
    down.push(Step::InsertTaken);
    assert_eq!(View::move_selection(true), down);

    let mut up = vec![Step::TakeSelection];
    up.extend(View::delete_selection());
    up.push(prev);
    up.push(Step::InsertTaken);
    up.push(prev);
    assert_eq!(View::move_selection(false), up);
}

#[test]
fn copy_and_paste_with_internal_clipboard() {
    let (mut view, _) = View::new(10, 10);
    assert_eq!(view.paste(None), "");
    let to_system = view.copy_selection(vec!['a', 'b', '\n'], false);
    assert_eq!(to_system, None);
    assert_eq!(view.paste(None), "ab\n");
}

#[test]
fn copy_and_paste_with_system_clipboard() {
    let (mut view, _) = View::new(10, 10);
    let to_system = view.copy_selection(vec!['x'], true);
    assert_eq!(to_system, Some(vec!['x']));
    // the view's own clipboard is untouched
    assert_eq!(view.paste(None), "");
    assert_eq!(view.paste(Some(Some(String::from("sys")))), "sys");
    assert_eq!(view.paste(Some(None)), "");
}

#[test]
fn insert_moves_cursor_over_inserted_text() {
    assert_eq!(
        View::insert_string(Some(5)),
        Some(Step::MoveMark(
            Mark::Cursor(0),
            TextObject { kind: Kind::Char, offset: Offset::Forward(5, Mark::Cursor(0)) }
        ))
    );
    assert_eq!(View::insert_string(Some(0)), None);
}

#[test]
fn undo_redo_move_cursor_to_end_point() {
    let (view, _) = View::new(10, 10);
    assert_eq!(view.undo(Some(7)), Some(BufferOp::SetMark(Mark::Cursor(0), 7)));
    assert_eq!(view.undo(None), None);
    assert_eq!(view.redo(Some(3)), Some(BufferOp::SetMark(Mark::Cursor(0), 3)));
    assert_eq!(view.redo(None), None);
}

#[test]
fn try_save_without_file_name_shows_message() {
    let (mut view, _) = View::new(60, 5);
    assert!(!view.try_save_buffer(false));
    assert_eq!(message_row(&view), NO_FILE_NAME_MESSAGE);
}

#[test]
fn try_save_with_file_name_saves() {
    let (mut view, _) = View::new(60, 5);
    assert!(view.try_save_buffer(true));
    assert_eq!(message_row(&view), "");
}

#[test]
fn message_cleared_once_expired() {
    let (mut view, _) = View::new(20, 5);
    view.show_message("saved");
    view.clear_message_if_expired(Some(MESSAGE_SECS - 1));
    assert_eq!(message_row(&view), "saved");
    view.clear_message_if_expired(None);
    assert_eq!(message_row(&view), "saved");
    view.clear_message_if_expired(Some(MESSAGE_SECS));
    assert_eq!(message_row(&view), "");
    // without a message there is nothing to clear
    view.clear_message_if_expired(Some(100));
    assert_eq!(message_row(&view), "");
}
