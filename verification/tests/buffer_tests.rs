use texteditor::buffer::Buffer;
use texteditor::view::Location;

fn texts(b: &Buffer) -> Vec<String> {
    b.lines.iter().map(|l| l.text()).collect()
}

fn at(line_idx: usize, grapheme_idx: usize) -> Location {
    Location { grapheme_idx, line_idx }
}

#[test]
fn buffer_load_splits_the_text_into_lines() {
    let b = Buffer::load("f.txt", "a\r\nb\n\nc");
    assert_eq!(texts(&b), vec!["a", "b", "", "c"]);
    assert!(!b.unsaved);
    assert_eq!(b.file_info.path.as_deref(), Some("f.txt"));
    assert_eq!(b.height(), 4);
    assert!(!b.is_empty());
}

#[test]
fn buffer_load_of_empty_text_and_final_break() {
    let b = Buffer::load("f.txt", "");
    assert!(b.is_empty());
    let b = Buffer::load("f.txt", "x\n");
    assert_eq!(texts(&b), vec!["x"]);
    let b = Buffer::load("f.txt", "x\r");
    assert_eq!(texts(&b), vec!["x\r"]);
}

#[test]
fn buffer_contents_end_each_line_with_a_break() {
    let b = Buffer::load("f.txt", "a\nb");
    assert_eq!(b.contents(), "a\nb\n");
    let b = Buffer::load("f.txt", "");
    assert_eq!(b.contents(), "");
}

#[test]
fn buffer_saved_text_loads_back() {
    let b = Buffer::load("f.txt", "one\n\nthree\n");
    let again = Buffer::load("f.txt", &b.contents());
    assert_eq!(texts(&again), texts(&b));
    assert_eq!(again.contents(), "one\n\nthree\n");
}

#[test]
fn buffer_insert_char_makes_a_line_below_the_last() {
    let mut b = Buffer::default();
    b.insert_char('x', at(0, 0));
    assert_eq!(texts(&b), vec!["x"]);
    assert!(b.unsaved);
    b.insert_char('y', at(1, 7));
    assert_eq!(texts(&b), vec!["x", "y"]);
}

#[test]
fn buffer_insert_char_far_below_does_nothing() {
    let mut b = Buffer::load("f.txt", "a");
    b.insert_char('z', at(5, 0));
    assert_eq!(texts(&b), vec!["a"]);
    assert!(!b.unsaved);
}

#[test]
fn buffer_delete_joins_with_the_next_line() {
    let mut b = Buffer::load("f.txt", "ab\ncd");
    b.delete(at(0, 2));
    assert_eq!(texts(&b), vec!["abcd"]);
    assert!(b.unsaved);
}

#[test]
fn buffer_delete_removes_a_grapheme_or_nothing() {
    let mut b = Buffer::load("f.txt", "abc");
    b.delete(at(0, 1));
    assert_eq!(texts(&b), vec!["ac"]);
    let mut b = Buffer::load("f.txt", "abc");
    b.delete(at(0, 3));
    assert_eq!(texts(&b), vec!["abc"]);
    assert!(b.unsaved);
    b.delete(at(4, 0));
    assert_eq!(texts(&b), vec!["abc"]);
}

#[test]
fn buffer_insert_newline_breaks_the_line() {
    let mut b = Buffer::load("f.txt", "abcd");
    b.insert_newline(at(0, 2));
    assert_eq!(texts(&b), vec!["ab", "cd"]);
    b.insert_newline(at(7, 0));
    assert_eq!(texts(&b), vec!["ab", "cd", ""]);
    b.insert_newline(at(0, 9));
    assert_eq!(texts(&b), vec!["ab", "", "cd", ""]);
}

#[test]
fn buffer_save_records_the_write() {
    let mut b = Buffer::default();
    b.mark_unsaved();
    assert_eq!(b.save(Err("ignored".to_string())), Ok(()));
    assert!(b.unsaved);
    let mut b = Buffer::load("f.txt", "a");
    b.mark_unsaved();
    assert_eq!(b.save(Err("disk full".to_string())), Err("disk full".to_string()));
    assert!(b.unsaved);
    assert_eq!(b.save(Ok(())), Ok(()));
    assert!(!b.unsaved);
}

#[test]
fn buffer_mark_saved_and_unsaved() {
    let mut b = Buffer::default();
    b.mark_unsaved();
    assert!(b.unsaved);
    b.mark_saved();
    assert!(!b.unsaved);
}
