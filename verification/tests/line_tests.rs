use texteditor::line::Line;

#[test]
fn line_from_counts_graphemes() {
    assert_eq!(Line::from("héllo").grapheme_count(), 5);
    assert_eq!(Line::from("e\u{301}x").grapheme_count(), 2);
    assert_eq!(Line::from("").grapheme_count(), 0);
    assert_eq!(Line::from("a\r\nb").grapheme_count(), 3);
    assert_eq!(Line::from("héllo").text(), "héllo");
}

#[test]
fn line_width_until_counts_wide_graphemes_twice() {
    let line = Line::from("日本a");
    assert_eq!(line.width_until(0), 0);
    assert_eq!(line.width_until(1), 2);
    assert_eq!(line.width_until(2), 4);
    assert_eq!(line.width_until(3), 5);
    assert_eq!(line.width_until(10), 5);
}

#[test]
fn line_visible_graphemes_replace_what_cannot_be_shown() {
    assert_eq!(Line::from("a\tb").get_visible_graphemes(0..10), "a b");
    assert_eq!(Line::from("\u{7}").get_visible_graphemes(0..10), "\u{25af}");
    assert_eq!(Line::from("\u{a0}").get_visible_graphemes(0..10), "\u{2423}");
    assert_eq!(Line::from("\u{200b}").get_visible_graphemes(0..10), ".");
    assert_eq!(Line::from("a b").get_visible_graphemes(0..10), "a b");
}

#[test]
fn line_visible_graphemes_mark_cut_graphemes() {
    let line = Line::from("日本");
    assert_eq!(line.get_visible_graphemes(1..4), "\u{22ef}本");
    assert_eq!(line.get_visible_graphemes(0..3), "日\u{22ef}");
    assert_eq!(line.get_visible_graphemes(0..4), "日本");
    assert_eq!(line.get_visible_graphemes(4..8), "");
}

#[test]
fn line_visible_graphemes_of_an_empty_range() {
    assert_eq!(Line::from("hello").get_visible_graphemes(3..3), "");
    assert_eq!(Line::from("hello").get_visible_graphemes(4..2), "");
    assert_eq!(Line::from("hello").get_visible_graphemes(1..3), "el");
}

#[test]
fn line_insert_char_at_and_past_the_end() {
    let mut line = Line::from("hllo");
    line.insert_char('e', 1);
    assert_eq!(line.text(), "hello");
    line.insert_char('!', 99);
    assert_eq!(line.text(), "hello!");
    line.insert_char('>', 0);
    assert_eq!(line.text(), ">hello!");
}

#[test]
fn line_insert_combining_mark_joins_the_grapheme() {
    let mut line = Line::from("e");
    line.insert_char('\u{301}', 1);
    assert_eq!(line.grapheme_count(), 1);
    assert_eq!(line.text(), "e\u{301}");
}

#[test]
fn line_delete_char_inside_and_past_the_end() {
    let mut line = Line::from("hello");
    line.delete_char(1);
    assert_eq!(line.text(), "hllo");
    line.delete_char(99);
    assert_eq!(line.text(), "hllo");
    line.delete_char(3);
    assert_eq!(line.text(), "hll");
}

#[test]
fn line_append_line_joins_texts() {
    let mut line = Line::from("foo");
    line.append_line(&Line::from("bar"));
    assert_eq!(line.text(), "foobar");
    assert_eq!(line.grapheme_count(), 6);
}

#[test]
fn line_split_cuts_before_the_index() {
    let mut line = Line::from("hello");
    let rest = line.split(2);
    assert_eq!(line.text(), "he");
    assert_eq!(rest.text(), "llo");
    let mut line = Line::from("hi");
    let rest = line.split(9);
    assert_eq!(line.text(), "hi");
    assert_eq!(rest.grapheme_count(), 0);
    let mut line = Line::from("hi");
    let rest = line.split(2);
    assert_eq!(line.text(), "hi");
    assert_eq!(rest.text(), "");
}

#[test]
fn line_split_then_append_gives_the_line_back() {
    let mut line = Line::from("grapheme");
    let rest = line.split(4);
    line.append_line(&rest);
    assert_eq!(line.text(), "grapheme");
    assert_eq!(line.grapheme_count(), 8);
}
