use texteditor::command::{
    Command, Edit, Event, KeyCode, KeyEvent, KeyEventKind, Move, System, MOD_CONTROL, MOD_NONE,
};
use texteditor::editor::{Editor, EditorAction, NAME, QUIT_CONFIRM_TIMES};
use texteditor::style::TextAttribute;
use texteditor::{Position, Size};

fn screen() -> Size {
    Size { height: 10, width: 40 }
}

fn press(code: KeyCode, modifiers: u8) -> Event {
    Event::Key(KeyEvent { code, modifiers, kind: KeyEventKind::Press })
}

fn ctrl_q() -> Event {
    press(KeyCode::Char('q'), MOD_CONTROL)
}

fn message(e: &mut Editor) -> String {
    let size = e.terminal_size();
    let frame = e.refresh_screen(Some(size.width)).unwrap();
    frame
        .rows
        .into_iter()
        .find(|p| p.row == size.height - 1 && p.attribute == Some(TextAttribute::Bold))
        .unwrap()
        .text
}

fn text_rows(e: &mut Editor) -> Vec<String> {
    let size = e.terminal_size();
    let frame = e.refresh_screen(Some(size.width)).unwrap();
    frame.rows.into_iter().filter(|p| p.attribute.is_none()).map(|p| p.text).collect()
}

fn loaded(text: &str) -> Editor {
    Editor::new(screen(), Some((String::from("x.txt"), Ok(String::from(text)))))
}

#[test]
fn editor_new_shows_the_help_text() {
    let mut e = Editor::new(screen(), None);
    assert!(!e.should_quit());
    assert_eq!(e.terminal_size(), screen());
    assert_eq!(
        message(&mut e),
        "\x1b[7m<C-s>\x1b[0m save     \x1b[7m<C-q>\x1b[0m quit"
    );
    assert_eq!(e.caret_pos(), Position { col: 0, row: 0 });
    assert_eq!(text_rows(&mut e).len(), 8);
}

#[test]
fn editor_new_reports_a_load_error() {
    let mut e = Editor::new(
        screen(),
        Some((String::from("x.txt"), Err(String::from("boom")))),
    );
    let text = message(&mut e);
    assert!(text.contains("Failed to load file x.txt! boom [No Name]"));
    assert!(e.file_to_save().is_none());
}

#[test]
fn editor_title_follows_the_file_name() {
    let mut e = loaded("abc");
    let title = e.refresh_status();
    assert_eq!(title, Some(format!("x.txt - {}", NAME)));
    e.title_applied(title.unwrap());
    assert_eq!(e.refresh_status(), None);
    let mut unnamed = Editor::new(screen(), None);
    assert_eq!(unnamed.refresh_status(), Some(format!("[No Name] - {}", NAME)));
}

#[test]
fn editor_quits_at_once_without_changes() {
    let mut e = loaded("abc");
    assert_eq!(e.evaluate_event(&ctrl_q()), EditorAction::Nothing);
    assert!(e.should_quit());
}

#[test]
fn editor_asks_again_before_dropping_changes() {
    let mut e = loaded("abc");
    e.evaluate_event(&press(KeyCode::Char('z'), MOD_NONE));
    e.evaluate_event(&ctrl_q());
    assert!(!e.should_quit());
    assert_eq!(
        message(&mut e),
        "WARNING! File has unsaved changes. Press Ctrl-Q 2 more times to quit"
    );
    e.evaluate_event(&ctrl_q());
    assert!(!e.should_quit());
    assert_eq!(
        message(&mut e),
        "WARNING! File has unsaved changes. Press Ctrl-Q 1 more times to quit"
    );
    e.evaluate_event(&ctrl_q());
    assert!(e.should_quit());
    assert_eq!(QUIT_CONFIRM_TIMES, 3);
}

#[test]
fn editor_other_command_resets_the_quit_count() {
    let mut e = loaded("abc");
    e.process_command(Command::Edit(Edit::Insert('z')));
    e.process_command(Command::System(System::Quit));
    e.process_command(Command::System(System::Quit));
    assert!(!e.should_quit());
    e.process_command(Command::Move(Move::Right));
    assert_eq!(message(&mut e), "");
    e.process_command(Command::System(System::Quit));
    assert!(!e.should_quit());
    e.process_command(Command::System(System::Quit));
    assert!(!e.should_quit());
    e.process_command(Command::System(System::Quit));
    assert!(e.should_quit());
}

#[test]
fn editor_ignores_releases_and_discards_other_events() {
    let mut e = loaded("abc");
    let release = Event::Key(KeyEvent {
        code: KeyCode::Char('z'),
        modifiers: MOD_NONE,
        kind: KeyEventKind::Release,
    });
    assert_eq!(e.evaluate_event(&release), EditorAction::Nothing);
    assert_eq!(e.evaluate_event(&Event::Other), EditorAction::Discarded);
    assert_eq!(e.file_to_save(), Some((String::from("x.txt"), String::from("abc\n"))));
    assert_eq!(e.evaluate_event(&ctrl_q()), EditorAction::Nothing);
    assert!(e.should_quit());
}

#[test]
fn editor_resize_lays_out_the_screen() {
    let mut e = loaded("abc");
    assert_eq!(e.evaluate_event(&Event::Resize(20, 5)), EditorAction::Resized);
    assert_eq!(e.terminal_size(), Size { height: 5, width: 20 });
    let rows = text_rows(&mut e);
    assert_eq!(rows, vec!["abc", "~", "~"]);
}

#[test]
fn editor_typing_goes_to_the_view() {
    let mut e = loaded("abc");
    e.evaluate_event(&press(KeyCode::End, MOD_NONE));
    e.evaluate_event(&press(KeyCode::Char('d'), MOD_NONE));
    e.evaluate_event(&press(KeyCode::Enter, MOD_NONE));
    e.evaluate_event(&press(KeyCode::Char('e'), MOD_NONE));
    assert_eq!(e.caret_pos(), Position { col: 1, row: 1 });
    assert_eq!(e.file_to_save(), Some((String::from("x.txt"), String::from("abcd\ne\n"))));
}

#[test]
fn editor_save_reports_the_outcome() {
    let mut e = loaded("abc");
    e.evaluate_event(&press(KeyCode::Char('z'), MOD_NONE));
    assert_eq!(e.evaluate_event(&press(KeyCode::Char('s'), MOD_CONTROL)), EditorAction::Save);
    e.handle_save(Err(String::from("disk full")));
    assert!(message(&mut e).contains("Error writing to file x.txt! disk full"));
    e.evaluate_event(&ctrl_q());
    assert!(!e.should_quit());
    e.handle_save(Ok(()));
    assert_eq!(message(&mut e), "file saved succsefully!");
    e.evaluate_event(&ctrl_q());
    assert!(e.should_quit());
}

#[test]
fn editor_save_without_a_file_name() {
    let mut e = Editor::new(screen(), None);
    assert_eq!(e.file_to_save(), None);
    e.handle_save(Ok(()));
    assert_eq!(message(&mut e), "file saved succsefully!");
}

#[test]
fn editor_status_line_reports_the_document() {
    let mut e = loaded("abc\ndef");
    e.refresh_status();
    let line = e.status_bar_line(40).unwrap();
    assert_eq!(line.len(), 40);
    assert!(line.starts_with("x.txt - 2 lines"));
    assert!(line.ends_with("1/2"));
}

#[test]
fn editor_frame_paints_every_part() {
    let mut e = loaded("abc\ndef");
    e.refresh_status();
    let frame = e.refresh_screen(Some(40)).unwrap();
    assert_eq!(frame.caret, Position { col: 0, row: 0 });
    assert_eq!(frame.rows.len(), 10);
    assert_eq!(frame.rows[0].row, 9);
    assert_eq!(frame.rows[0].attribute, Some(TextAttribute::Bold));
    assert_eq!(frame.rows[1].row, 8);
    assert_eq!(frame.rows[1].attribute, Some(TextAttribute::Reverse));
    assert!(frame.rows[1].text.starts_with("x.txt - 2 lines"));
    assert_eq!(frame.rows[2].row, 0);
    assert_eq!(frame.rows[2].text, "abc");
    assert_eq!(frame.rows[3].text, "def");
    assert_eq!(frame.rows[4].text, "~");
    assert_eq!(frame.rows[9].row, 7);
}

#[test]
fn editor_frame_without_width_skips_the_status_bar() {
    let mut e = loaded("abc");
    let frame = e.refresh_screen(None).unwrap();
    assert!(frame.rows.iter().all(|p| p.attribute != Some(TextAttribute::Reverse)));
    assert_eq!(frame.rows.len(), 9);
}

#[test]
fn editor_frame_on_small_screens() {
    let mut e = Editor::new(Size { height: 0, width: 40 }, None);
    assert!(e.refresh_screen(Some(40)).is_none());
    let mut e = Editor::new(Size { height: 2, width: 40 }, None);
    let frame = e.refresh_screen(Some(40)).unwrap();
    assert_eq!(frame.rows.len(), 2);
    assert_eq!(frame.rows[0].row, 1);
    assert_eq!(frame.rows[1].row, 0);
    let mut e = Editor::new(Size { height: 1, width: 40 }, None);
    let frame = e.refresh_screen(Some(40)).unwrap();
    assert_eq!(frame.rows.len(), 1);
}

#[test]
fn editor_empty_document_shows_the_welcome() {
    let mut e = Editor::new(Size { height: 9, width: 40 }, None);
    let rows = text_rows(&mut e);
    assert_eq!(rows.len(), 7);
    assert!(rows[2].starts_with('~'));
    assert!(rows[2].contains("texteditor editor -- version 0.1.0"));
    assert_eq!(rows[0], "~");
}

#[test]
fn editor_status_bar_follows_edits() {
    let mut e = loaded("abc");
    e.refresh_status();
    e.evaluate_event(&press(KeyCode::Char('z'), MOD_NONE));
    e.update_status_bar();
    let frame = e.refresh_screen(Some(40)).unwrap();
    let status = frame
        .rows
        .iter()
        .find(|p| p.attribute == Some(TextAttribute::Reverse))
        .unwrap();
    assert!(status.text.starts_with("x.txt - 1 lines (modified)"));
    assert!(status.text.ends_with("1/1"));
}

#[test]
fn editor_status_bar_stays_marked_after_a_frame() {
    let mut e = loaded("abc");
    assert!(e.status_bar_needs_redraw());
    e.refresh_screen(Some(40));
    assert!(e.status_bar_needs_redraw());
    e.evaluate_event(&press(KeyCode::Right, MOD_NONE));
    assert!(e.status_bar_needs_redraw());
}
