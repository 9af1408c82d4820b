use texteditor::documentstatus::DocumentStatus;
use texteditor::messagebar::{exceeds_lifetime, MessageBar};
use texteditor::statusbar::StatusBar;
use texteditor::uicomponent::UiComponent;
use texteditor::Size;

fn status(name: &str, lines: usize, current: usize, modified: bool) -> DocumentStatus {
    DocumentStatus {
        file_name: name.to_string(),
        line_count: lines,
        current_line: current,
        is_modified: modified,
    }
}

#[test]
fn document_status_strings() {
    let s = status("a.txt", 12, 4, true);
    assert_eq!(s.modified_indicator_to_string(), "(modified)");
    assert_eq!(s.line_count_to_string(), "12 lines");
    assert_eq!(s.position_indicator_to_string(), "5/12");
    let s = status("a.txt", 0, usize::MAX, false);
    assert_eq!(s.modified_indicator_to_string(), "");
    assert_eq!(s.line_count_to_string(), "0 lines");
    assert_eq!(s.position_indicator_to_string(), format!("{}/0", usize::MAX));
}

#[test]
fn document_status_equality() {
    assert_eq!(status("a", 1, 0, false), status("a", 1, 0, false));
    assert_ne!(status("a", 1, 0, false), status("b", 1, 0, false));
    assert_ne!(status("a", 1, 0, false), status("a", 1, 0, true));
    assert_eq!(DocumentStatus::default(), status("", 0, 0, false));
}

#[test]
fn status_line_pads_the_position_to_the_right() {
    let mut bar = StatusBar::default();
    bar.update_status(status("a.txt", 3, 0, true));
    assert!(bar.needs_redraw());
    let line = bar.status_line(40);
    assert_eq!(line, format!("a.txt - 3 lines (modified){}1/3", " ".repeat(11)));
    assert_eq!(line.len(), 40);
}

#[test]
fn status_line_cuts_the_file_part() {
    let mut bar = StatusBar::default();
    bar.update_status(status("a.txt", 3, 0, true));
    assert!(bar.can_cut_to(20));
    assert_eq!(bar.status_line(20), "a.txt - 3 lines (1/3");
    assert_eq!(bar.status_line(2), "  ");
    assert_eq!(bar.status_line(0), "");
}

#[test]
fn status_line_cannot_cut_inside_a_character() {
    let mut bar = StatusBar::default();
    bar.update_status(status("é.txt", 1, 0, false));
    assert!(!bar.can_cut_to(4));
    assert!(bar.can_cut_to(5));
    assert_eq!(bar.status_line(5), "é1/1");
    assert!(bar.can_cut_to(60));
}

#[test]
fn status_bar_redraws_only_on_change() {
    let mut bar = StatusBar::default();
    assert!(!bar.needs_redraw());
    bar.update_status(DocumentStatus::default());
    assert!(!bar.needs_redraw());
    bar.update_status(status("x", 1, 0, false));
    assert!(bar.needs_redraw());
    bar.mark_redraw(false);
    bar.update_status(status("x", 1, 0, false));
    assert!(!bar.needs_redraw());
    bar.resize(Size { height: 1, width: 30 });
    assert!(bar.needs_redraw());
}

#[test]
fn message_lifetime_is_five_seconds() {
    assert!(!exceeds_lifetime(0, 0));
    assert!(!exceeds_lifetime(5, 0));
    assert!(exceeds_lifetime(5, 1));
    assert!(exceeds_lifetime(6, 0));
}

#[test]
fn message_bar_shows_new_messages() {
    let mut bar = MessageBar::default();
    assert!(!bar.redraw_due(false));
    assert!(bar.redraw_due(true));
    bar.update_message("hello");
    assert!(bar.redraw_due(false));
    assert_eq!(bar.text_for(false), "hello");
    assert_eq!(bar.text_for(true), "");
    bar.mark_redraw(false);
    assert!(!bar.redraw_due(true));
    bar.update_message("hello");
    assert!(!bar.redraw_due(false));
    assert_eq!(bar.text_to_draw(), "hello");
}

#[test]
fn message_bar_shows_errors_in_red() {
    let mut bar = MessageBar::default();
    bar.update_error("bad");
    let text = bar.text_for(false);
    assert!(text.contains("bad"));
    assert!(text.ends_with("\u{1b}[0m") || text == "bad");
    assert!(text.starts_with("\u{1b}[38;2;204;36;29m") || text.starts_with("\u{1b}[m") || text.starts_with("bad"));
}
