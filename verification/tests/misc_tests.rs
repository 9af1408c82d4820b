use texteditor::fileinfo::FileInfo;
use texteditor::location::Location;
use texteditor::text::{
    char_is_control, char_is_white_space, char_len_utf8, chars_of, decimal_string, push_decimal,
    push_spaces, str_byte_len, str_eq,
};
use texteditor::{Position, Size};

#[test]
fn decimal_notation() {
    assert_eq!(decimal_string(0), "0");
    assert_eq!(decimal_string(7), "7");
    assert_eq!(decimal_string(10), "10");
    assert_eq!(decimal_string(4096), "4096");
    assert_eq!(decimal_string(usize::MAX), usize::MAX.to_string());
    let mut s = String::from("n=");
    push_decimal(&mut s, 305);
    assert_eq!(s, "n=305");
}

#[test]
fn text_helpers() {
    assert!(str_eq("abc", "abc"));
    assert!(!str_eq("abc", "abd"));
    assert!(!str_eq("abc", "ab"));
    assert!(str_eq("", ""));
    assert_eq!(chars_of("aé"), vec!['a', 'é']);
    assert_eq!(str_byte_len("aé😀"), 7);
    assert_eq!(char_len_utf8('a'), 1);
    assert_eq!(char_len_utf8('é'), 2);
    assert_eq!(char_len_utf8('€'), 3);
    assert_eq!(char_len_utf8('😀'), 4);
    let mut s = String::from("x");
    push_spaces(&mut s, 3);
    assert_eq!(s, "x   ");
}

#[test]
fn char_classes() {
    assert!(char_is_white_space(' '));
    assert!(char_is_white_space('\t'));
    assert!(char_is_white_space('\u{3000}'));
    assert!(!char_is_white_space('a'));
    assert!(char_is_control('\u{7}'));
    assert!(char_is_control('\u{7f}'));
    assert!(char_is_control('\u{85}'));
    assert!(!char_is_control('a'));
}

#[test]
fn file_info_display_name() {
    assert_eq!(FileInfo::default().display_name(), "[No Name]");
    assert_eq!(FileInfo::from("notes.txt").display_name(), "notes.txt");
    assert_eq!(FileInfo::from("dir/sub/notes.txt").display_name(), "notes.txt");
    assert_eq!(FileInfo::from("dir/..").display_name(), "[No Name]");
    assert_eq!(FileInfo::from("/").display_name(), "[No Name]");
}

#[test]
fn location_difference() {
    let a = Location { x: 5, y: 2 };
    let b = Location { x: 3, y: 4 };
    assert_eq!(a.diff(&b), Location { x: 2, y: 0 });
    assert_eq!(b.diff(&a), Location { x: 0, y: 2 });
    assert_eq!(Location::default(), Location { x: 0, y: 0 });
    assert_eq!(Position::from(a), Position { col: 5, row: 2 });
}

#[test]
fn position_saturating_sub() {
    let p = Position { col: 4, row: 1 };
    assert_eq!(p.saturating_sub(Position { col: 1, row: 3 }), Position { col: 3, row: 0 });
    assert_eq!(Position::default(), Position { col: 0, row: 0 });
    assert_eq!(Size::default(), Size { height: 0, width: 0 });
}
