use vstd::prelude::*;
use vstd::string::StringExecFns;

use crate::fileinfo::FileInfo;
use crate::line::{grapheme_clusters, text_with_char, text_without, Line};
use crate::text::{chars_of, push_char};
use crate::view::Location;

verus! {

/// `s` without one `\r` at its end.
pub open spec fn strip_cr(s: Seq<char>) -> Seq<char> {
    if s.len() > 0 && s.last() == '\r' {
        s.drop_last()
    } else {
        s
    }
}

/// The lines finished in the first `i` characters of `t`, and the text of the line begun after them.
pub open spec fn scan_lines(t: Seq<char>, i: int) -> (Seq<Seq<char>>, Seq<char>)
    decreases i,
{
    if i <= 0 {
        (seq![], seq![])
    } else {
        let (done, cur) = scan_lines(t, i - 1);
        if t[i - 1] == '\n' {
            (done.push(strip_cr(cur)), seq![])
        } else {
            (done, cur.push(t[i - 1]))
        }
    }
}

/// The lines of `t` as `str::lines` gives them: cut at each `\n`, a `\r` before the `\n`
/// dropped, and no empty line after a final `\n`.
pub open spec fn text_lines(t: Seq<char>) -> Seq<Seq<char>> {
    let (done, cur) = scan_lines(t, t.len() as int);
    if cur.len() > 0 {
        done.push(cur)
    } else {
        done
    }
}

/// The text that is written for `lines`: each line followed by `\n`.
pub open spec fn saved_text(lines: Seq<Seq<char>>) -> Seq<char>
    decreases lines.len(),
{
    if lines.len() == 0 {
        seq![]
    } else {
        saved_text(lines.drop_last()) + lines.last().push('\n')
    }
}

/// The graphemes of each line, line by line.
pub open spec fn lines_view(lines: Seq<Line>) -> Seq<Seq<Seq<char>>> {
    lines.map_values(|l: Line| l@)
}

/// The text of each line.
pub open spec fn line_texts(ls: Seq<Seq<Seq<char>>>) -> Seq<Seq<char>> {
    ls.map_values(|l: Seq<Seq<char>>| l.flatten())
}

/// The lines of a buffer after a character is typed at `at` (the line under `at` is made
/// first where `at` is one past the last line).
pub open spec fn lines_after_insert(ls: Seq<Seq<Seq<char>>>, c: char, at: Location) -> Seq<
    Seq<Seq<char>>,
> {
    let l = at.line_idx as int;
    let base = if l == ls.len() {
        ls.push(seq![])
    } else {
        ls
    };
    base.update(l, grapheme_clusters(text_with_char(base[l], c, at.grapheme_idx)))
}

/// The lines of a buffer after the grapheme at `at` is deleted: at or past the end of a
/// line that has a next one, the next line is joined to it.
pub open spec fn lines_after_delete(ls: Seq<Seq<Seq<char>>>, at: Location) -> Seq<Seq<Seq<char>>> {
    let l = at.line_idx as int;
    let g = at.grapheme_idx;
    if l < ls.len() {
        if g >= ls[l].len() && l + 1 < ls.len() {
            ls.update(l, grapheme_clusters(ls[l].flatten() + ls[l + 1].flatten())).remove(l + 1)
        } else if g < ls[l].len() {
            ls.update(l, grapheme_clusters(text_without(ls[l], g)))
        } else {
            ls
        }
    } else {
        ls
    }
}

/// The text of each line after a character is typed at `at` (see `lines_after_insert`).
pub open spec fn texts_after_insert(ls: Seq<Seq<Seq<char>>>, c: char, at: Location) -> Seq<
    Seq<char>,
> {
    let l = at.line_idx as int;
    let base = if l == ls.len() {
        ls.push(seq![])
    } else {
        ls
    };
    line_texts(base).update(l, text_with_char(base[l], c, at.grapheme_idx))
}

/// The text of each line after the grapheme at `at` is deleted (see `lines_after_delete`).
pub open spec fn texts_after_delete(ls: Seq<Seq<Seq<char>>>, at: Location) -> Seq<Seq<char>> {
    let l = at.line_idx as int;
    let g = at.grapheme_idx;
    let ts = line_texts(ls);
    if l < ls.len() {
        if g >= ls[l].len() && l + 1 < ls.len() {
            ts.update(l, ts[l] + ts[l + 1]).remove(l + 1)
        } else if g < ls[l].len() {
            ts.update(l, text_without(ls[l], g))
        } else {
            ts
        }
    } else {
        ts
    }
}

/// The lines of a buffer after a line break is put at `at`.
pub open spec fn lines_after_newline(ls: Seq<Seq<Seq<char>>>, at: Location) -> Seq<
    Seq<Seq<char>>,
> {
    let l = at.line_idx as int;
    let g = at.grapheme_idx as int;
    if l < ls.len() {
        if g <= ls[l].len() {
            ls.update(l, ls[l].take(g)).insert(l + 1, ls[l].skip(g))
        } else {
            ls.insert(l + 1, seq![])
        }
    } else {
        ls.push(seq![])
    }
}

/// The text of a document, line by line, with where it is stored and whether it has
/// changed since it was last saved.
pub struct Buffer {
    pub lines: Vec<Line>,
    pub file_info: FileInfo,
    pub unsaved: bool,
}

impl Default for Buffer {
    fn default() -> (r: Self)
        ensures
            r.lines@.len() == 0,
            r.file_info.path is None,
            !r.unsaved,
    {
        Buffer { lines: Vec::new(), file_info: FileInfo::default(), unsaved: false }
    }
}

proof fn lemma_no_graphemes_in_nothing(gs: Seq<Seq<char>>)
    requires
        gs.flatten() == Seq::<char>::empty(),
        forall|i: int| 0 <= i < gs.len() ==> (#[trigger] gs[i]).len() > 0,
    ensures
        gs.len() == 0,
{
    if gs.len() > 0 {
        assert(gs.flatten() == gs.first() + gs.drop_first().flatten());
        assert(gs[0].len() > 0);
    }
}

impl Buffer {
    /// The graphemes of each line.
    pub open spec fn view_lines(&self) -> Seq<Seq<Seq<char>>> {
        lines_view(self.lines@)
    }

    /// The buffer for the file `file_path` whose text is `contents`: one line for each line
    /// of the text, unchanged since it was saved.
    pub fn load(file_path: &str, contents: &str) -> (r: Self)
        ensures
            r.view_lines() == text_lines(contents@).map_values(|t: Seq<char>| grapheme_clusters(t)),
            line_texts(r.view_lines()) == text_lines(contents@),
            r.file_info.path matches Some(p) && p@ == file_path@,
            !r.unsaved,
    {
        let chars = chars_of(contents);
        let ghost t = contents@;
        let n = chars.len();
        let mut lines: Vec<Line> = Vec::new();
        let mut cur = String::new();
        for i in 0..n
            invariant
                n == chars@.len(),
                chars@ == t,
                lines_view(lines@) == scan_lines(t, i as int).0.map_values(
                    |s: Seq<char>| grapheme_clusters(s),
                ),
                cur@ == scan_lines(t, i as int).1,
                line_texts(lines_view(lines@)) == scan_lines(t, i as int).0,
        {
            let c = chars[i];
            if c == '\n' {
                let mut piece = String::new();
                let len = cur.unicode_len();
                let keep = if len > 0 && cur.as_str().get_char(len - 1) == '\r' {
                    len - 1
                } else {
                    len
                };
                piece.append(cur.as_str().substring_char(0, keep));
                proof {
                    assert(piece@ =~= strip_cr(cur@));
                }
                let ghost before = lines@;
                let new_line = Line::from(piece.as_str());
                lines.push(new_line);
                proof {
                    assert(line_texts(lines_view(lines@)) =~= line_texts(lines_view(before)).push(
                        piece@,
                    ));
                    assert(lines_view(lines@) =~= lines_view(before).push(
                        grapheme_clusters(piece@),
                    ));
                    assert(scan_lines(t, i + 1).0 =~= scan_lines(t, i as int).0.push(strip_cr(cur@)));
                    assert(lines_view(lines@) =~= scan_lines(t, i + 1).0.map_values(
                        |s: Seq<char>| grapheme_clusters(s),
                    ));
                }
                cur = String::new();
            } else {
                push_char(&mut cur, c);
            }
        }
        if cur.unicode_len() > 0 {
            let ghost before = lines@;
            lines.push(Line::from(cur.as_str()));
            proof {
                assert(lines_view(lines@) =~= lines_view(before).push(grapheme_clusters(cur@)));
                assert(line_texts(lines_view(lines@)) =~= line_texts(lines_view(before)).push(
                    cur@,
                ));
            }
        }
        proof {
            assert(lines_view(lines@) =~= text_lines(t).map_values(
                |s: Seq<char>| grapheme_clusters(s),
            ));
            assert(line_texts(lines_view(lines@)) =~= text_lines(t));
        }
        Self { lines, file_info: FileInfo::from(file_path), unsaved: false }
    }

    /// The text to write for the buffer: each line followed by a line break.
    pub fn contents(&self) -> (r: String)
        ensures
            r@ == saved_text(line_texts(self.view_lines())),
    {
        let mut r = String::new();
        let n = self.lines.len();
        for i in 0..n
            invariant
                n == self.lines@.len(),
                r@ == saved_text(line_texts(self.view_lines()).take(i as int)),
        {
            let t = self.lines[i].text();
            r.append(t.as_str());
            push_char(&mut r, '\n');
            proof {
                let ts = line_texts(self.view_lines());
                assert(ts.take(i + 1).drop_last() =~= ts.take(i as int));
                assert(ts.take(i + 1).last() == t@);
            }
        }
        proof {
            let ts = line_texts(self.view_lines());
            assert(ts.take(n as int) =~= ts);
        }
        r
    }

    /// Records the outcome of writing `contents()` to the buffer's file: a buffer that has a
    /// file is marked saved when the write succeeded, and the write's error is handed back
    /// when it failed; a buffer without a file is left as it is.
    pub fn save(&mut self, written: Result<(), String>) -> (r: Result<(), String>)
        ensures
            final(self).lines == old(self).lines,
            final(self).file_info == old(self).file_info,
            old(self).file_info.path is None ==> r is Ok && final(self).unsaved == old(self).unsaved,
            old(self).file_info.path is Some ==> r == written && final(self).unsaved == (
            old(self).unsaved && written is Err),
    {
        if self.file_info.path.is_some() {
            if written.is_ok() {
                self.mark_saved();
            }
            written
        } else {
            Ok(())
        }
    }

    /// Marks the buffer as changed since it was saved.
    pub fn mark_unsaved(&mut self)
        ensures
            final(self).unsaved,
            final(self).lines == old(self).lines,
            final(self).file_info == old(self).file_info,
    {
        self.unsaved = true;
    }

    /// Marks the buffer as saved.
    pub fn mark_saved(&mut self)
        ensures
            !final(self).unsaved,
            final(self).lines == old(self).lines,
            final(self).file_info == old(self).file_info,
    {
        self.unsaved = false;
    }

    /// Whether the buffer has no lines.
    pub fn is_empty(&self) -> (r: bool)
        ensures
            r == (self.lines@.len() == 0),
    {
        self.lines.is_empty()
    }

    /// The number of lines.
    pub fn height(&self) -> (r: usize)
        ensures
            r == self.lines@.len(),
    {
        self.lines.len()
    }
}

impl Buffer {
    /// Types `c` at `caret_location`: where the caret is one past the last line, a new line
    /// is made for it first; where it is further down, nothing happens.
    pub fn insert_char(&mut self, c: char, caret_location: Location)
        ensures
            final(self).file_info == old(self).file_info,
            caret_location.line_idx > old(self).lines@.len() ==> final(self).view_lines()
                == old(self).view_lines() && final(self).unsaved == old(self).unsaved,
            caret_location.line_idx <= old(self).lines@.len() ==> final(self).view_lines()
                == lines_after_insert(old(self).view_lines(), c, caret_location)
                && final(self).unsaved,
            caret_location.line_idx <= old(self).lines@.len() ==> line_texts(
                final(self).view_lines(),
            ) == texts_after_insert(old(self).view_lines(), c, caret_location),
    {
        let idx = caret_location.line_idx;
        if idx > self.lines.len() {
            return ;
        }
        let ghost ls = self.view_lines();
        if idx == self.lines.len() || self.lines.is_empty() {
            let empty = Line::from("");
            proof {
                reveal_strlit("");
                assert(empty@.flatten() =~= Seq::<char>::empty());
                lemma_no_graphemes_in_nothing(empty@);
                assert(empty@ =~= Seq::<Seq<char>>::empty());
            }
            let ghost old_lines = self.lines@;
            self.lines.push(empty);
            proof {
                assert(self.lines@ == old_lines.push(empty));
                assert(self.view_lines() =~= ls.push(seq![]));
            }
        }
        let ghost base = self.view_lines();
        let line = &mut self.lines[idx];
        line.insert_char(c, caret_location.grapheme_idx);
        proof {
            assert(self.view_lines() =~= base.update(
                idx as int,
                grapheme_clusters(text_with_char(base[idx as int], c, caret_location.grapheme_idx)),
            ));
            assert(line_texts(self.view_lines()) =~= texts_after_insert(
                ls,
                c,
                caret_location,
            ));
        }
        self.mark_unsaved();
    }

    /// Deletes the grapheme at `at`; at or past the end of a line that has a next line,
    /// joins the next line to it. The buffer is marked changed in any case.
    pub fn delete(&mut self, at: Location)
        ensures
            final(self).file_info == old(self).file_info,
            final(self).view_lines() == lines_after_delete(old(self).view_lines(), at),
            line_texts(final(self).view_lines()) == texts_after_delete(old(self).view_lines(), at),
            final(self).unsaved,
    {
        let ghost ls = self.view_lines();
        let l = at.line_idx;
        if l < self.lines.len() {
            let count = self.lines[l].grapheme_count();
            if at.grapheme_idx >= count && l.saturating_add(1) < self.height() {
                let next_line = self.lines.remove(l + 1);
                let line = &mut self.lines[l];
                line.append_line(&next_line);
                proof {
                    assert(self.view_lines() =~= ls.update(
                        l as int,
                        grapheme_clusters(ls[l as int].flatten() + ls[l + 1].flatten()),
                    ).remove(l + 1));
                    assert(line_texts(self.view_lines()) =~= texts_after_delete(ls, at));
                }
            } else if at.grapheme_idx < count {
                let line = &mut self.lines[l];
                line.delete_char(at.grapheme_idx);
                proof {
                    assert(self.view_lines() =~= ls.update(
                        l as int,
                        grapheme_clusters(text_without(ls[l as int], at.grapheme_idx)),
                    ));
                    assert(line_texts(self.view_lines()) =~= texts_after_delete(ls, at));
                }
            } else {
                assert(line_texts(self.view_lines()) =~= texts_after_delete(ls, at));
            }
        } else {
            assert(line_texts(self.view_lines()) =~= texts_after_delete(ls, at));
        }
        self.mark_unsaved();
    }

    /// Breaks the line at `caret_pos`; below the last line, adds an empty line.
    pub fn insert_newline(&mut self, caret_pos: Location)
        ensures
            final(self).file_info == old(self).file_info,
            final(self).view_lines() == lines_after_newline(old(self).view_lines(), caret_pos),
            final(self).unsaved,
    {
        let ghost ls = self.view_lines();
        let l = caret_pos.line_idx;
        if l < self.lines.len() {
            let line = &mut self.lines[l];
            let new_line = line.split(caret_pos.grapheme_idx);
            let ghost mid = self.view_lines();
            self.lines.insert(l.saturating_add(1), new_line);
            proof {
                assert(mid =~= if caret_pos.grapheme_idx <= ls[l as int].len() {
                    ls.update(l as int, ls[l as int].take(caret_pos.grapheme_idx as int))
                } else {
                    ls
                });
                assert(self.view_lines() =~= lines_after_newline(ls, caret_pos));
            }
        } else {
            self.lines.push(Line::default());
            proof {
                assert(self.view_lines() =~= ls.push(seq![]));
            }
        }
        self.mark_unsaved();
    }
}

/// Whether `s` holds no line break and does not end in a carriage return: a text that can
/// stand as a line of a file.
pub open spec fn is_plain_line(s: Seq<char>) -> bool {
    &&& forall|j: int| 0 <= j < s.len() ==> s[j] != '\n'
    &&& !(s.len() > 0 && s.last() == '\r')
}

proof fn lemma_scan_prefix(t: Seq<char>, u: Seq<char>, i: int)
    requires
        0 <= i <= t.len(),
    ensures
        scan_lines(t + u, i) == scan_lines(t, i),
    decreases i,
{
    if i > 0 {
        lemma_scan_prefix(t, u, i - 1);
        assert((t + u)[i - 1] == t[i - 1]);
    }
}

proof fn lemma_scan_through_line(s: Seq<char>, line: Seq<char>, done: Seq<Seq<char>>, k: int)
    requires
        is_plain_line(line),
        0 <= k <= line.len(),
        scan_lines(s, s.len() as int) == (done, Seq::<char>::empty()),
    ensures
        scan_lines(s + line.push('\n'), s.len() + k) == (done, line.take(k)),
    decreases k,
{
    let full = s + line.push('\n');
    if k == 0 {
        lemma_scan_prefix(s, line.push('\n'), s.len() as int);
        assert(line.take(0) =~= Seq::<char>::empty());
    } else {
        lemma_scan_through_line(s, line, done, k - 1);
        assert(full[s.len() + k - 1] == line[k - 1]);
        assert(line.take(k - 1).push(line[k - 1]) =~= line.take(k));
    }
}

proof fn lemma_scan_saved(ts: Seq<Seq<char>>)
    requires
        forall|i: int| 0 <= i < ts.len() ==> is_plain_line(#[trigger] ts[i]),
    ensures
        scan_lines(saved_text(ts), saved_text(ts).len() as int) == (ts, Seq::<char>::empty()),
    decreases ts.len(),
{
    if ts.len() > 0 {
        let init = ts.drop_last();
        let line = ts.last();
        assert(is_plain_line(ts[ts.len() - 1]));
        lemma_scan_saved(init);
        let s = saved_text(init);
        lemma_scan_through_line(s, line, init, line.len() as int);
        assert(line.take(line.len() as int) =~= line);
        let full = s + line.push('\n');
        assert(full == saved_text(ts));
        assert(full[(s.len() + line.len()) as int] == '\n');
        assert(strip_cr(line) == line);
        assert(init.push(line) =~= ts);
    }
}

/// Writing lines out and reading the text back gives the same lines, for lines that hold no
/// line break and do not end in a carriage return.
pub proof fn lemma_reload_gives_saved_lines(ts: Seq<Seq<char>>)
    requires
        forall|i: int| 0 <= i < ts.len() ==> is_plain_line(#[trigger] ts[i]),
    ensures
        text_lines(saved_text(ts)) == ts,
{
    lemma_scan_saved(ts);
}

proof fn lemma_scan_rebuilds(t: Seq<char>, i: int)
    requires
        0 <= i <= t.len(),
        forall|j: int| 0 <= j < t.len() ==> t[j] != '\r',
    ensures
        saved_text(scan_lines(t, i).0) + scan_lines(t, i).1 == t.take(i),
        forall|j: int| 0 <= j < scan_lines(t, i).1.len() ==> scan_lines(t, i).1[j] != '\r',
    decreases i,
{
    if i == 0 {
        assert(t.take(0) =~= Seq::<char>::empty());
    } else {
        lemma_scan_rebuilds(t, i - 1);
        let (done, cur) = scan_lines(t, i - 1);
        assert(t.take(i - 1).push(t[i - 1]) =~= t.take(i));
        if t[i - 1] == '\n' {
            assert(strip_cr(cur) == cur);
            assert(done.push(cur).drop_last() =~= done);
            assert(saved_text(done.push(cur)) == saved_text(done) + cur.push('\n'));
            assert(saved_text(done) + cur.push('\n') + Seq::<char>::empty() =~= t.take(i));
        } else {
            assert(saved_text(done) + cur.push(t[i - 1]) =~= t.take(i));
        }
    }
}

/// Reading a text into lines and writing them out gives the same text, for a text with no
/// carriage return that is empty or ends in a line break.
pub proof fn lemma_save_gives_loaded_text(t: Seq<char>)
    requires
        forall|j: int| 0 <= j < t.len() ==> t[j] != '\r',
        t.len() == 0 || t.last() == '\n',
    ensures
        saved_text(text_lines(t)) == t,
{
    lemma_scan_rebuilds(t, t.len() as int);
    assert(t.take(t.len() as int) =~= t);
    if t.len() > 0 {
        assert(scan_lines(t, t.len() as int).1 == Seq::<char>::empty());
    }
    assert(saved_text(scan_lines(t, t.len() as int).0) + Seq::<char>::empty() =~= saved_text(
        scan_lines(t, t.len() as int).0,
    ));
}

} // verus!
