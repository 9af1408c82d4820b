use texteditor::command::{Edit, Move};
use texteditor::uicomponent::UiComponent;
use texteditor::view::View;
use texteditor::{Position, Size};

fn sized(height: usize, width: usize) -> View {
    View::new(Size { height, width })
}

fn pos(col: usize, row: usize) -> Position {
    Position { col, row }
}

#[test]
fn view_moves_across_line_ends() {
    let mut v = sized(10, 10);
    v.load("f.txt", "abc\nde");
    for _ in 0..3 {
        v.handle_move_command(Move::Right);
    }
    assert_eq!(v.caret_pos(), pos(3, 0));
    v.handle_move_command(Move::Right);
    assert_eq!(v.caret_pos(), pos(0, 1));
    v.handle_move_command(Move::EndOfLine);
    assert_eq!(v.caret_pos(), pos(2, 1));
    v.handle_move_command(Move::Up);
    assert_eq!(v.caret_pos(), pos(2, 0));
    v.handle_move_command(Move::Down);
    v.handle_move_command(Move::Down);
    assert_eq!(v.caret_pos(), pos(0, 2));
    v.handle_move_command(Move::Down);
    assert_eq!(v.caret_pos(), pos(0, 2));
    v.handle_move_command(Move::Left);
    assert_eq!(v.caret_pos(), pos(2, 1));
    v.handle_move_command(Move::StartOfLine);
    assert_eq!(v.caret_pos(), pos(0, 1));
    v.handle_move_command(Move::Left);
    assert_eq!(v.caret_pos(), pos(3, 0));
}

#[test]
fn view_left_at_the_start_stays() {
    let mut v = sized(10, 10);
    v.load("f.txt", "abc");
    v.handle_move_command(Move::Left);
    assert_eq!(v.caret_pos(), pos(0, 0));
    v.handle_move_command(Move::Up);
    assert_eq!(v.caret_pos(), pos(0, 0));
}

#[test]
fn view_scrolls_to_keep_the_caret_visible() {
    let mut v = sized(2, 3);
    v.load("f.txt", "abcdef\nb\nc\nd");
    v.handle_move_command(Move::Down);
    v.handle_move_command(Move::Down);
    assert_eq!(v.get_status().current_line, 2);
    assert_eq!(v.caret_pos(), pos(0, 1));
    v.handle_move_command(Move::PageUp);
    assert_eq!(v.get_status().current_line, 1);
    assert_eq!(v.caret_pos(), pos(0, 0));
    v.handle_move_command(Move::Up);
    v.handle_move_command(Move::EndOfLine);
    assert_eq!(v.caret_pos(), pos(2, 0));
    v.handle_move_command(Move::PageDown);
    assert_eq!(v.get_status().current_line, 1);
}

#[test]
fn view_caret_column_counts_wide_graphemes() {
    let mut v = sized(10, 10);
    v.load("f.txt", "日本語");
    v.handle_move_command(Move::Right);
    v.handle_move_command(Move::Right);
    assert_eq!(v.caret_pos(), pos(4, 0));
}

#[test]
fn view_scroll_vertically_and_horizontally() {
    let mut v = sized(3, 4);
    v.scroll_vertically(10);
    v.scroll_horizontally(10);
    v.mark_redraw(false);
    v.scroll_vertically(9);
    assert!(!v.needs_redraw());
    v.scroll_vertically(0);
    assert!(v.needs_redraw());
}

#[test]
fn view_status_reports_the_document() {
    let mut v = sized(10, 10);
    let s = v.get_status();
    assert_eq!(s.file_name, "[No Name]");
    assert_eq!(s.line_count, 0);
    assert!(!s.is_modified);
    v.load("dir/notes.txt", "a\nb");
    v.handle_move_command(Move::Down);
    let s = v.get_status();
    assert_eq!(s.file_name, "notes.txt");
    assert_eq!(s.line_count, 2);
    assert_eq!(s.current_line, 1);
    assert!(!v.has_unsaved_changed());
    assert_eq!(v.get_file_name(), "dir/notes.txt");
}

#[test]
fn view_edit_commands_change_text_and_caret() {
    let mut v = sized(10, 10);
    v.load("f.txt", "abc");
    v.handle_edit_command(Edit::Insert('x'));
    assert_eq!(v.contents(), "xabc\n");
    assert_eq!(v.caret_pos(), pos(1, 0));
    assert!(v.has_unsaved_changed());
    v.handle_edit_command(Edit::Backspace);
    assert_eq!(v.contents(), "abc\n");
    assert_eq!(v.caret_pos(), pos(0, 0));
    v.handle_edit_command(Edit::Backspace);
    assert_eq!(v.contents(), "abc\n");
    v.handle_move_command(Move::Right);
    v.handle_edit_command(Edit::NewLine);
    assert_eq!(v.contents(), "a\nbc\n");
    assert_eq!(v.caret_pos(), pos(0, 1));
    v.handle_edit_command(Edit::Backspace);
    assert_eq!(v.contents(), "abc\n");
    assert_eq!(v.caret_pos(), pos(1, 0));
    v.handle_edit_command(Edit::Delete);
    assert_eq!(v.contents(), "ac\n");
}

#[test]
fn view_typing_into_an_empty_document() {
    let mut v = sized(10, 10);
    v.handle_edit_command(Edit::Insert('h'));
    v.handle_edit_command(Edit::Insert('i'));
    assert_eq!(v.contents(), "hi\n");
    assert_eq!(v.caret_pos(), pos(2, 0));
    v.handle_edit_command(Edit::NewLine);
    assert_eq!(v.contents(), "hi\n\n");
    assert_eq!(v.caret_pos(), pos(0, 1));
}

#[test]
fn view_rows_show_the_welcome_on_an_empty_document() {
    let v = sized(9, 40);
    let rows = v.rows(0);
    assert_eq!(rows.len(), 9);
    assert_eq!(rows[3], "~  texteditor editor -- version 0.1.0   ");
    assert_eq!(rows[3].chars().count(), 40);
    assert_eq!(rows[0], "~");
    assert_eq!(rows[8], "~");
    let narrow = sized(3, 10).rows(0);
    assert_eq!(narrow, vec!["~", "~", "~"]);
    let empty = sized(3, 0).rows(0);
    assert_eq!(empty[1], "");
}

#[test]
fn view_rows_show_the_visible_text() {
    let mut v = sized(3, 4);
    v.load("f.txt", "abcdef\n\tx");
    let rows = v.rows(0);
    assert_eq!(rows, vec!["abcd", " x", "~"]);
    for _ in 0..5 {
        v.handle_move_command(Move::Right);
    }
    let rows = v.rows(0);
    assert_eq!(rows, vec!["cdef", "", "~"]);
}

#[test]
fn view_save_and_load_record_state() {
    let mut v = sized(5, 5);
    assert!(!v.has_path());
    assert_eq!(v.save(Ok(())), Ok(()));
    v.load("f.txt", "a");
    assert!(v.has_path());
    v.handle_edit_command(Edit::Insert('b'));
    assert_eq!(v.save(Err("no".to_string())), Err("no".to_string()));
    assert!(v.has_unsaved_changed());
    assert_eq!(v.save(Ok(())), Ok(()));
    assert!(!v.has_unsaved_changed());
}

#[test]
fn view_resize_marks_redraw_and_scrolls() {
    let mut v = sized(10, 10);
    v.load("f.txt", "a\nb\nc\nd");
    for _ in 0..3 {
        v.handle_move_command(Move::Down);
    }
    v.mark_redraw(false);
    v.resize(Size { height: 2, width: 10 });
    assert!(v.needs_redraw());
    assert_eq!(v.caret_pos(), pos(0, 1));
}

#[test]
fn view_backspace_takes_back_typing_mid_line() {
    let mut v = sized(10, 10);
    v.load("f.txt", "añb\ncd");
    v.handle_move_command(Move::Right);
    v.handle_move_command(Move::Right);
    v.handle_edit_command(Edit::Insert('€'));
    assert_eq!(v.contents(), "añ€b\ncd\n");
    assert_eq!(v.caret_pos(), pos(3, 0));
    v.handle_edit_command(Edit::Backspace);
    assert_eq!(v.contents(), "añb\ncd\n");
    assert_eq!(v.caret_pos(), pos(2, 0));
}

#[test]
fn view_backspace_at_line_start_joins_lines() {
    let mut v = sized(10, 10);
    v.load("f.txt", "ab\ncd");
    v.handle_move_command(Move::Down);
    v.handle_edit_command(Edit::Backspace);
    assert_eq!(v.contents(), "abcd\n");
    assert_eq!(v.caret_pos(), pos(2, 0));
    v.handle_edit_command(Edit::Delete);
    assert_eq!(v.contents(), "abd\n");
}
