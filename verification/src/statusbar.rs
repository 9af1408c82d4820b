use vstd::prelude::*;
use vstd::string::StringExecFns;

use crate::documentstatus::{modified_marker, same_status, DocumentStatus};
use crate::terminal::{sat_add, sat_sub, Size};
use crate::text::{
    byte_len, char_len_utf8, char_utf8_len, chars_of, decimal, lemma_decimal_bytes, lemma_utf8_len_concat,
    lemma_utf8_len_grows, push_char, push_spaces,
    spaces, str_byte_len, utf8_len,
};
use crate::uicomponent::UiComponent;

verus! {

/// The left part of the status line: `<file name> - <n> lines <(modified)>`.
pub open spec fn status_beginning(st: DocumentStatus) -> Seq<char> {
    st.file_name@ + " - "@ + (decimal(st.line_count as nat) + " lines"@) + seq![' '] + if st.is_modified {
        modified_marker()
    } else {
        Seq::<char>::empty()
    }
}

/// The right part of the status line: `<current line, counted from one>/<line count>`.
pub open spec fn status_position(st: DocumentStatus) -> Seq<char> {
    decimal(sat_add(st.current_line, 1) as nat).push('/') + decimal(st.line_count as nat)
}

/// The room for the left part of the status line in `width` columns.
pub open spec fn beginning_room(st: DocumentStatus, width: usize) -> usize {
    sat_sub(width, byte_len(status_position(st)))
}

/// Whether the left part fits its room, or can be cut at a character to take the room exactly.
pub open spec fn beginning_cuttable(st: DocumentStatus, width: usize) -> bool {
    let b = status_beginning(st);
    let room = beginning_room(st, width);
    byte_len(b) > room ==> exists|k: int| 0 <= k <= b.len() && utf8_len(b.take(k)) == room
}

/// The left part of the status line, cut to its room where it is longer.
pub open spec fn cut_beginning(st: DocumentStatus, width: usize) -> Seq<char> {
    let b = status_beginning(st);
    let room = beginning_room(st, width);
    if byte_len(b) > room {
        b.take(choose|k: int| 0 <= k <= b.len() && utf8_len(b.take(k)) == room)
    } else {
        b
    }
}

/// The status line for an area `width` columns wide: the left part (cut to fit), then the
/// position right-aligned; all blank where that is still too long.
pub open spec fn status_text(st: DocumentStatus, width: usize) -> Seq<char> {
    let t = cut_beginning(st, width);
    let p = status_position(st);
    let pad = sat_sub(width, byte_len(t));
    let s = t + (if p.len() < pad {
        spaces((pad - p.len()) as nat)
    } else {
        Seq::<char>::empty()
    }) + p;
    if byte_len(s) > width {
        spaces(width as nat)
    } else {
        s
    }
}

/// The line above the message bar that reports the document's status.
#[derive(Debug)]
pub struct StatusBar {
    status: DocumentStatus,
    needs_redraw: bool,
    size: Size,
}

impl Default for StatusBar {
    fn default() -> (r: Self)
        ensures
            r.status().file_name@ == Seq::<char>::empty(),
            r.status().line_count == 0,
            r.status().current_line == 0,
            !r.status().is_modified,
            !r.flag(),
            r.area() == (Size { height: 0, width: 0 }),
    {
        StatusBar { status: DocumentStatus::default(), needs_redraw: false, size: Size::default() }
    }
}

/// The first characters of `s` that take exactly `room` bytes.
fn cut_to(s: &str, room: usize) -> (r: String)
    requires
        exists|k: int| 0 <= k <= s@.len() && utf8_len(s@.take(k)) == room,
    ensures
        r@ == s@.take(choose|k: int| 0 <= k <= s@.len() && utf8_len(s@.take(k)) == room),
{
    let ghost k = choose|k: int| 0 <= k <= s@.len() && utf8_len(s@.take(k)) == room;
    let chars = chars_of(s);
    let n = chars.len();
    let mut r = String::new();
    let mut used: usize = 0;
    let mut i: usize = 0;
    assert(s@.take(0) =~= Seq::<char>::empty());
    while used < room
        invariant
            chars@ == s@,
            n == s@.len(),
            0 <= k <= s@.len(),
            utf8_len(s@.take(k)) == room,
            i <= k,
            used <= room,
            used == utf8_len(s@.take(i as int)),
            r@ == s@.take(i as int),
        decreases k - i,
    {
        proof {
            assert(i < k) by {
                if i > k {
                    lemma_utf8_len_grows(s@, k, i as int);
                }
            }
            if i + 1 < k {
                lemma_utf8_len_grows(s@, i + 1, k);
            }
            assert(s@.take(i + 1).drop_last() =~= s@.take(i as int));
        }
        let c = chars[i];
        used = used + char_len_utf8(c);
        push_char(&mut r, c);
        i = i + 1;
        assert(r@ =~= s@.take(i as int));
    }
    proof {
        if (i as int) < k {
            lemma_utf8_len_grows(s@, i as int, k);
        }
    }
    r
}

impl StatusBar {
    /// The status shown.
    pub closed spec fn status(&self) -> DocumentStatus {
        self.status
    }

    /// Whether the bar is marked to be drawn again.
    pub closed spec fn flag(&self) -> bool {
        self.needs_redraw
    }

    /// The size of the bar.
    pub closed spec fn area(&self) -> Size {
        self.size
    }

    /// Shows `supplied_status`, marking the bar to be drawn where it differs from the status
    /// shown.
    pub fn update_status(&mut self, supplied_status: DocumentStatus)
        ensures
            same_status(old(self).status(), supplied_status) ==> *final(self) == *old(self),
            !same_status(old(self).status(), supplied_status) ==> final(self).status()
                == supplied_status && final(self).flag() && final(self).area() == old(self).area(),
    {
        if self.status == supplied_status {
            return ;
        }
        self.status = supplied_status;
        self.mark_redraw(true);
    }

    /// Whether the status line for `width` columns can be made: its left part fits, or can
    /// be cut at a character boundary to fit.
    pub fn can_cut_to(&self, width: usize) -> (r: bool)
        ensures
            r == beginning_cuttable(self.status(), width),
    {
        let beginning = self.beginning();
        let position = self.status.position_indicator_to_string();
        let room = width.saturating_sub(str_byte_len(position.as_str()));
        if str_byte_len(beginning.as_str()) <= room {
            return true;
        }
        let chars = chars_of(beginning.as_str());
        let ghost b = beginning@;
        let n = chars.len();
        let mut used: usize = 0;
        let mut i: usize = 0;
        assert(b.take(0) =~= Seq::<char>::empty());
        while i < n && used < room
            invariant
                chars@ == b,
                n == b.len(),
                i <= n,
                used == utf8_len(b.take(i as int)),
                used <= room,
                forall|j: int| 0 <= j < i ==> utf8_len(b.take(j)) < room,
                byte_len(b) > room,
                room == beginning_room(self.status(), width),
                b == status_beginning(self.status()),
            decreases n - i,
        {
            proof {
                assert(b.take(i + 1).drop_last() =~= b.take(i as int));
            }
            let c = chars[i];
            let step = char_len_utf8(c);
            if step > room - used {
                proof {
                    assert(b.take(i + 1).last() == c);
                    assert(utf8_len(b.take(i + 1)) > room);
                    assert forall|k: int| 0 <= k <= b.len() implies utf8_len(b.take(k)) != room by {
                        if k > i + 1 {
                            lemma_utf8_len_grows(b, i + 1, k);
                        } else if k < i {
                            assert(utf8_len(b.take(k)) < room);
                        }
                    }
                    assert(byte_len(b) > room);
                    assert(room == beginning_room(self.status(), width));
                    assert(!beginning_cuttable(self.status(), width));
                }
                return false;
            }
            used = used + step;
            i = i + 1;
        }
        proof {
            if used < room {
                assert(b.take(n as int) =~= b);
                assert forall|k: int| 0 <= k <= b.len() implies utf8_len(b.take(k)) != room by {
                    if k < n {
                        lemma_utf8_len_grows(b, k, n as int);
                    }
                }
            }
        }
        used == room
    }

    fn beginning(&self) -> (r: String)
        ensures
            r@ == status_beginning(self.status()),
    {
        let line_count = self.status.line_count_to_string();
        let modified = self.status.modified_indicator_to_string();
        let mut beginning = self.status.file_name.clone();
        beginning.append(" - ");
        beginning.append(line_count.as_str());
        push_char(&mut beginning, ' ');
        beginning.append(modified.as_str());
        assert(beginning@ =~= status_beginning(self.status()));
        beginning
    }

    /// The status line for an area `width` columns wide.
    pub fn status_line(&self, width: usize) -> (r: String)
        requires
            beginning_cuttable(self.status(), width),
        ensures
            r@ == status_text(self.status(), width),
            byte_len(r@) <= width,
    {
        let beginning = self.beginning();
        let position_indicator = self.status.position_indicator_to_string();
        let pos_len = str_byte_len(position_indicator.as_str());
        let max_beginning = width.saturating_sub(pos_len);
        let beginning = if str_byte_len(beginning.as_str()) > max_beginning {
            cut_to(beginning.as_str(), max_beginning)
        } else {
            beginning
        };
        assert(beginning@ == cut_beginning(self.status(), width));
        let pad_len = width.saturating_sub(str_byte_len(beginning.as_str()));
        let mut status = beginning.clone();
        let pos_chars = position_indicator.unicode_len();
        if pos_chars < pad_len {
            push_spaces(&mut status, pad_len - pos_chars);
        }
        status.append(position_indicator.as_str());
        assert(status@ =~= beginning@ + (if position_indicator@.len() < pad_len {
            spaces((pad_len - position_indicator@.len()) as nat)
        } else {
            Seq::<char>::empty()
        }) + position_indicator@);
        if str_byte_len(status.as_str()) > width {
            let mut blank = String::new();
            push_spaces(&mut blank, width);
            proof {
                lemma_spaces_bytes(width as nat);
                assert(blank@ =~= spaces(width as nat));
            }
            blank
        } else {
            status
        }
    }
}

/// Spaces take a byte each.
proof fn lemma_spaces_bytes(n: nat)
    ensures
        utf8_len(spaces(n)) == n,
    decreases n,
{
    if n > 0 {
        assert(spaces(n).drop_last() =~= spaces((n - 1) as nat));
        lemma_spaces_bytes((n - 1) as nat);
    }
}

/// Where the whole status fits its width, the status line is the file name, ` - `, the line
/// count and ` lines `, `(modified)` for a changed document, then spaces, and at the right
/// end the caret's line counted from one, `/` and the line count; it takes the whole width.
pub proof fn lemma_status_line_layout(st: DocumentStatus, width: usize)
    requires
        st.current_line < usize::MAX,
        utf8_len(
            st.file_name@ + " - "@ + decimal(st.line_count as nat) + " lines"@ + seq![' '] + (if st.is_modified {
                "(modified)"@
            } else {
                Seq::<char>::empty()
            }),
        ) + (decimal((st.current_line + 1) as nat) + seq!['/'] + decimal(st.line_count as nat)).len()
            <= width,
    ensures
        ({
            let b = st.file_name@ + " - "@ + decimal(st.line_count as nat) + " lines"@ + seq![' ']
                + (if st.is_modified {
                "(modified)"@
            } else {
                Seq::<char>::empty()
            });
            let p = decimal((st.current_line + 1) as nat) + seq!['/'] + decimal(
                st.line_count as nat,
            );
            &&& status_text(st, width) == b + spaces((width - utf8_len(b) - p.len()) as nat) + p
            &&& utf8_len(status_text(st, width)) == width
        }),
{
    let b = st.file_name@ + " - "@ + decimal(st.line_count as nat) + " lines"@ + seq![' '] + (
    if st.is_modified {
        "(modified)"@
    } else {
        Seq::<char>::empty()
    });
    let p = decimal((st.current_line + 1) as nat) + seq!['/'] + decimal(st.line_count as nat);
    assert(status_beginning(st) =~= b);
    assert(status_position(st) =~= p);
    let d1 = decimal((st.current_line + 1) as nat);
    let d2 = decimal(st.line_count as nat);
    lemma_decimal_bytes((st.current_line + 1) as nat);
    lemma_decimal_bytes(st.line_count as nat);
    lemma_utf8_len_concat(d1, seq!['/']);
    assert(seq!['/'].drop_last() =~= Seq::<char>::empty());
    assert(utf8_len(Seq::<char>::empty()) == 0);
    assert(seq!['/'].last() == '/');
    assert(('/' as u32) == 47);
    assert(char_utf8_len('/') == 1);
    assert(utf8_len(seq!['/']) == utf8_len(seq!['/'].drop_last()) + char_utf8_len('/'));
    assert(utf8_len(seq!['/']) == 1);
    lemma_utf8_len_concat(d1 + seq!['/'], d2);
    assert(utf8_len(p) == p.len());
    assert(byte_len(p) == p.len());
    assert(byte_len(b) == utf8_len(b));
    assert(cut_beginning(st, width) == b);
    let pad = (width - utf8_len(b)) as usize;
    assert(sat_sub(width, byte_len(b)) == pad);
    let gap = spaces((width - utf8_len(b) - p.len()) as nat);
    assert((if p.len() < pad {
        spaces((pad - p.len()) as nat)
    } else {
        Seq::<char>::empty()
    }) =~= gap);
    let whole = b + gap + p;
    lemma_spaces_bytes((width - utf8_len(b) - p.len()) as nat);
    lemma_utf8_len_concat(b, gap);
    lemma_utf8_len_concat(b + gap, p);
    assert(utf8_len(whole) == width);
}

impl UiComponent for StatusBar {
    open spec fn redraw_flag(&self) -> bool {
        self.flag()
    }

    closed spec fn with_redraw(&self, value: bool) -> Self {
        StatusBar { needs_redraw: value, ..*self }
    }

    closed spec fn with_size(&self, size: Size) -> Self {
        StatusBar { size, ..*self }
    }

    fn mark_redraw(&mut self, value: bool)
        ensures
            final(self).flag() == value,
            final(self).status() == old(self).status(),
            final(self).area() == old(self).area(),
    {
        self.needs_redraw = value;
    }

    fn needs_redraw(&self) -> (r: bool)
        ensures
            r == self.flag(),
    {
        self.needs_redraw
    }

    fn set_size(&mut self, size: Size)
        ensures
            final(self).area() == size,
            final(self).status() == old(self).status(),
            final(self).flag() == old(self).flag(),
    {
        self.size = size;
    }

    fn resize(&mut self, size: Size)
        ensures
            final(self).area() == size,
            final(self).status() == old(self).status(),
            final(self).flag(),
    {
        self.set_size(size);
        self.mark_redraw(true);
    }
}

} // verus!
