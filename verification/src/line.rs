use std::ops::Range;
use unicode_segmentation::UnicodeSegmentation;
use unicode_width::UnicodeWidthStr;
use vstd::prelude::*;
use vstd::string::StringExecFns;
use vstd::seq_lib::lemma_flatten_concat;

use crate::terminal::sat_add;
use crate::text::{char_is_control, char_is_white_space, chars_of, is_control, is_white_space, push_char};

verus! {

/// The extended grapheme clusters of `text`, in order, as the segmentation crate finds them.
pub uninterp spec fn grapheme_clusters(text: Seq<char>) -> Seq<Seq<char>>;

/// The number of terminal columns that `text` takes, as the width crate measures it.
pub uninterp spec fn display_width(text: Seq<char>) -> usize;

/// Splits `text` into its extended grapheme clusters (`UnicodeSegmentation::graphemes(text, true)`).
/// The crate hands out consecutive non-empty slices of `text`, from its start to its end, so
/// the clusters put together give `text` back and none is empty; the last two clauses say so.
/// How `text` is cut is only named.
#[verifier::external_body]
fn split_graphemes(text: &str) -> (r: Vec<String>)
    ensures
        r@.map_values(|g: String| g@) == grapheme_clusters(text@),
        r@.map_values(|g: String| g@).flatten() == text@,
        forall|i: int| 0 <= i < r@.len() ==> (#[trigger] r@[i])@.len() > 0,
{
    text.graphemes(true).map(String::from).collect()
}

/// The columns that `grapheme` takes in a terminal (`UnicodeWidthStr::width`), only named here.
#[verifier::external_body]
fn measure_width(grapheme: &str) -> (r: usize)
    ensures
        r == display_width(grapheme@),
{
    grapheme.width()
}

/// How many columns a grapheme is drawn in.
#[derive(Debug, Clone, Copy)]
pub enum GraphemeWidth {
    Half,
    Full,
}

/// The columns of a grapheme drawn at `w`.
pub open spec fn columns(w: GraphemeWidth) -> nat {
    match w {
        GraphemeWidth::Half => 1,
        GraphemeWidth::Full => 2,
    }
}

impl GraphemeWidth {
    /// `other` plus the columns of this width, saturating.
    pub fn saturating_add(self, other: usize) -> (r: usize)
        ensures
            r == sat_add(other, columns(self) as usize),
    {
        match self {
            GraphemeWidth::Half => other.saturating_add(1),
            GraphemeWidth::Full => other.saturating_add(2),
        }
    }
}

/// The width class of a grapheme: one column up to a measured width of one, else two.
pub open spec fn width_class(g: Seq<char>) -> GraphemeWidth {
    if display_width(g) <= 1 {
        GraphemeWidth::Half
    } else {
        GraphemeWidth::Full
    }
}

/// The columns that a grapheme is drawn in.
pub open spec fn cell_width(g: Seq<char>) -> nat {
    columns(width_class(g))
}

/// The character drawn in place of a grapheme that cannot be shown as it is:
/// a space for a tab, `␣` for other blank graphemes, `▯` for graphemes with a
/// control character, `.` for graphemes of zero width.
pub open spec fn replacement_of(g: Seq<char>) -> Option<char> {
    if g == seq!['\t'] {
        Some(' ')
    } else if (forall|i: int| 0 <= i < g.len() ==> is_white_space(#[trigger] g[i])) && g != seq![
        ' ',
    ] {
        Some('\u{2423}')
    } else if exists|i: int| 0 <= i < g.len() && is_control(#[trigger] g[i]) {
        Some('\u{25af}')
    } else if display_width(g) == 0 {
        Some('.')
    } else {
        None
    }
}

/// What is drawn for a grapheme that lies whole in view.
pub open spec fn shown_as(g: Seq<char>) -> Seq<char> {
    match replacement_of(g) {
        Some(c) => seq![c],
        None => g,
    }
}

/// The columns taken by the first `i` graphemes of `gs`.
pub open spec fn columns_before(gs: Seq<Seq<char>>, i: int) -> nat
    decreases i,
{
    if i <= 0 {
        0
    } else {
        columns_before(gs, i - 1) + cell_width(gs[i - 1])
    }
}

/// The column where grapheme `i` starts, saturating at `usize::MAX`.
pub open spec fn column_of(gs: Seq<Seq<char>>, i: int) -> usize {
    if columns_before(gs, i) <= usize::MAX {
        columns_before(gs, i) as usize
    } else {
        usize::MAX
    }
}

/// What is drawn of grapheme `i` in the columns `start..end`: nothing where it lies
/// outside them, `⋯` where it lies only partly in them, else the grapheme as shown.
pub open spec fn visible_piece(gs: Seq<Seq<char>>, i: int, start: usize, end: usize) -> Seq<char> {
    let left = column_of(gs, i);
    let right = column_of(gs, i + 1);
    if left < end && right > start {
        if right > end || left < start {
            seq!['\u{22ef}']
        } else {
            shown_as(gs[i])
        }
    } else {
        seq![]
    }
}

/// What is drawn of the first `n` graphemes of `gs` in the columns `start..end`.
pub open spec fn visible_prefix(gs: Seq<Seq<char>>, n: int, start: usize, end: usize) -> Seq<char>
    decreases n,
{
    if n <= 0 {
        seq![]
    } else {
        visible_prefix(gs, n - 1, start, end) + visible_piece(gs, n - 1, start, end)
    }
}

/// What is drawn of a line in the columns `start..end`.
pub open spec fn visible_text(gs: Seq<Seq<char>>, start: usize, end: usize) -> Seq<char> {
    if start >= end {
        seq![]
    } else {
        visible_prefix(gs, gs.len() as int, start, end)
    }
}

/// The text of a line with `c` put before grapheme `idx`, or at the end where `idx` is past it.
pub open spec fn text_with_char(gs: Seq<Seq<char>>, c: char, idx: usize) -> Seq<char> {
    let m = if idx < gs.len() {
        idx as int
    } else {
        gs.len() as int
    };
    gs.take(m).flatten().push(c) + gs.skip(m).flatten()
}

/// The text of a line without grapheme `idx`; the whole text where there is no such grapheme.
pub open spec fn text_without(gs: Seq<Seq<char>>, idx: usize) -> Seq<char> {
    if idx < gs.len() {
        gs.remove(idx as int).flatten()
    } else {
        gs.flatten()
    }
}

/// One grapheme of a line, with how it is drawn.
#[derive(Debug)]
struct TextFragment {
    grapheme: String,
    rendered_width: GraphemeWidth,
    replacement: Option<char>,
}

spec fn fragment_wf(f: TextFragment) -> bool {
    &&& f.rendered_width == width_class(f.grapheme@)
    &&& f.replacement == replacement_of(f.grapheme@)
}

spec fn graphemes_of(frags: Seq<TextFragment>) -> Seq<Seq<char>> {
    frags.map_values(|f: TextFragment| f.grapheme@)
}

/// A line of text, held as its graphemes.
pub struct Line {
    fragments: Vec<TextFragment>,
}

impl View for Line {
    type V = Seq<Seq<char>>;

    /// The graphemes of the line, in order.
    closed spec fn view(&self) -> Seq<Seq<char>> {
        graphemes_of(self.fragments@)
    }
}

impl Default for Line {
    fn default() -> (r: Self)
        ensures
            r@ == Seq::<Seq<char>>::empty(),
    {
        let r = Line { fragments: Vec::new() };
        assert(r@ =~= Seq::<Seq<char>>::empty());
        r
    }
}

proof fn lemma_flatten_subrange_push(gs: Seq<Seq<char>>, from: int, i: int)
    requires
        0 <= from <= i < gs.len(),
    ensures
        gs.subrange(from, i + 1).flatten() == gs.subrange(from, i).flatten() + gs[i],
{
    assert(gs.subrange(from, i + 1) =~= gs.subrange(from, i).push(gs[i]));
    gs.subrange(from, i).lemma_flatten_push(gs[i]);
}

impl Line {
    #[verifier::type_invariant]
    spec fn inv(self) -> bool {
        forall|i: int| 0 <= i < self.fragments@.len() ==> fragment_wf(#[trigger] self.fragments@[i])
    }

    /// The line made of the graphemes of `line_str`.
    pub fn from(line_str: &str) -> (r: Self)
        ensures
            r@ == grapheme_clusters(line_str@),
            r@.flatten() == line_str@,
            forall|i: int| 0 <= i < r@.len() ==> (#[trigger] r@[i]).len() > 0,
    {
        let fragments = Self::text_to_fragment(line_str);
        Self { fragments }
    }

    fn text_to_fragment(line_str: &str) -> (r: Vec<TextFragment>)
        ensures
            graphemes_of(r@) == grapheme_clusters(line_str@),
            graphemes_of(r@).flatten() == line_str@,
            forall|i: int| 0 <= i < r@.len() ==> (#[trigger] r@[i]).grapheme@.len() > 0,
            forall|i: int| 0 <= i < r@.len() ==> fragment_wf(#[trigger] r@[i]),
    {
        let graphemes = split_graphemes(line_str);
        let mut r: Vec<TextFragment> = Vec::new();
        let n = graphemes.len();
        for i in 0..n
            invariant
                n == graphemes@.len(),
                r@.len() == i,
                forall|k: int| 0 <= k < i ==> (#[trigger] r@[k]).grapheme@ == graphemes@[k]@,
                forall|k: int| 0 <= k < r@.len() ==> fragment_wf(#[trigger] r@[k]),
        {
            r.push(Self::grapheme_to_fragment(graphemes[i].as_str()));
        }
        assert(graphemes_of(r@) =~= graphemes@.map_values(|g: String| g@));
        assert forall|i: int| 0 <= i < r@.len() implies (#[trigger] r@[i]).grapheme@.len() > 0 by {
            assert(r@[i].grapheme@ == graphemes@[i]@);
        }
        r
    }

    fn grapheme_to_fragment(g: &str) -> (r: TextFragment)
        ensures
            r.grapheme@ == g@,
            fragment_wf(r),
    {
        let width = measure_width(g);
        let rendered_width = if width <= 1 {
            GraphemeWidth::Half
        } else {
            GraphemeWidth::Full
        };
        let mut replacement = if width == 0 {
            Some('.')
        } else {
            None
        };
        let chars = chars_of(g);
        let n = chars.len();
        if n == 1 && chars[0] == '\t' {
            assert(g@ =~= seq!['\t']);
            replacement = Some(' ');
        } else {
            let mut all_blank = true;
            let mut any_control = false;
            for i in 0..n
                invariant
                    n == chars@.len(),
                    chars@ == g@,
                    all_blank == (forall|k: int| 0 <= k < i ==> is_white_space(#[trigger] g@[k])),
                    any_control == (exists|k: int| 0 <= k < i && is_control(#[trigger] g@[k])),
            {
                let c = chars[i];
                if !char_is_white_space(c) {
                    all_blank = false;
                }
                if char_is_control(c) {
                    any_control = true;
                }
            }
            let is_space = n == 1 && chars[0] == ' ';
            assert(is_space == (g@ == seq![' '])) by {
                if g@ == seq![' '] {
                    assert(g@[0] == ' ');
                }
                if is_space {
                    assert(g@ =~= seq![' ']);
                }
            }
            if all_blank && !is_space {
                replacement = Some('\u{2423}');
            } else if any_control {
                replacement = Some('\u{25af}');
            }
        }
        let owned = g.to_owned();
        TextFragment { grapheme: owned, rendered_width, replacement }
    }

    /// Appends the text of graphemes `from..to` to `out`.
    fn append_fragments(&self, out: &mut String, from: usize, to: usize)
        requires
            from <= to <= self@.len(),
        ensures
            final(out)@ == old(out)@ + self@.subrange(from as int, to as int).flatten(),
    {
        let ghost gs = self@;
        assert(gs.subrange(from as int, from as int) =~= Seq::<Seq<char>>::empty());
        assert(out@ =~= old(out)@ + gs.subrange(from as int, from as int).flatten());
        for i in from..to
            invariant
                gs == self@,
                to <= gs.len(),
                gs.len() == self.fragments@.len(),
                out@ == old(out)@ + gs.subrange(from as int, i as int).flatten(),
        {
            proof {
                lemma_flatten_subrange_push(gs, from as int, i as int);
            }
            out.append(self.fragments[i].grapheme.as_str());
            assert(out@ =~= old(out)@ + gs.subrange(from as int, i + 1).flatten());
        }
    }

    /// The text of the line, its graphemes put together.
    pub fn text(&self) -> (r: String)
        ensures
            r@ == self@.flatten(),
    {
        let mut r = String::new();
        self.append_fragments(&mut r, 0, self.fragments.len());
        assert(self@.subrange(0, self@.len() as int) =~= self@);
        assert(r@ =~= self@.flatten());
        r
    }

    /// A line holds no more graphemes than a `usize` counts.
    pub proof fn lemma_len_fits(&self)
        ensures
            self@.len() <= usize::MAX,
    {
        assert(self@.len() == self.fragments.len());
    }

    /// The number of graphemes in the line.
    pub fn grapheme_count(&self) -> (r: usize)
        ensures
            r == self@.len(),
    {
        self.fragments.len()
    }
}

impl Line {
    /// Puts `ch` before grapheme `target_idx` (at the end where the index is past it)
    /// and splits the new text into graphemes again.
    pub fn insert_char(&mut self, ch: char, target_idx: usize)
        ensures
            final(self)@ == grapheme_clusters(text_with_char(old(self)@, ch, target_idx)),
            final(self)@.flatten() == text_with_char(old(self)@, ch, target_idx),
    {
        let ghost gs = self@;
        let n = self.fragments.len();
        let m = if target_idx < n {
            target_idx
        } else {
            n
        };
        let mut res = String::new();
        self.append_fragments(&mut res, 0, m);
        push_char(&mut res, ch);
        self.append_fragments(&mut res, m, n);
        proof {
            assert(gs.subrange(0, m as int) =~= gs.take(m as int));
            assert(gs.subrange(m as int, n as int) =~= gs.skip(m as int));
            assert(res@ =~= text_with_char(gs, ch, target_idx));
        }
        self.fragments = Self::text_to_fragment(res.as_str());
    }

    /// Removes grapheme `target_idx` (nothing where there is none) and splits the
    /// new text into graphemes again.
    pub fn delete_char(&mut self, target_idx: usize)
        ensures
            final(self)@ == grapheme_clusters(text_without(old(self)@, target_idx)),
            final(self)@.flatten() == text_without(old(self)@, target_idx),
    {
        let ghost gs = self@;
        let n = self.fragments.len();
        let mut res = String::new();
        if target_idx < n {
            self.append_fragments(&mut res, 0, target_idx);
            self.append_fragments(&mut res, target_idx + 1, n);
            proof {
                let t = target_idx as int;
                assert(gs.remove(t) =~= gs.subrange(0, t) + gs.subrange(t + 1, n as int));
                lemma_flatten_concat(gs.subrange(0, t), gs.subrange(t + 1, n as int));
                assert(res@ =~= text_without(gs, target_idx));
            }
        } else {
            self.append_fragments(&mut res, 0, n);
            proof {
                assert(gs.subrange(0, n as int) =~= gs);
                assert(res@ =~= text_without(gs, target_idx));
            }
        }
        self.fragments = Self::text_to_fragment(res.as_str());
    }

    /// Appends the text of `next_line` and splits the joined text into graphemes again.
    pub fn append_line(&mut self, next_line: &Line)
        ensures
            final(self)@ == grapheme_clusters(old(self)@.flatten() + next_line@.flatten()),
            final(self)@.flatten() == old(self)@.flatten() + next_line@.flatten(),
    {
        let mut result = self.text();
        let next_string = next_line.text();
        result.append(next_string.as_str());
        self.fragments = Self::text_to_fragment(result.as_str());
    }

    /// Cuts the line before grapheme `grapheme_idx` and returns the part after the cut;
    /// where the index is past the end, the line stays as it is and an empty line is returned.
    pub fn split(&mut self, grapheme_idx: usize) -> (r: Self)
        ensures
            grapheme_idx > old(self)@.len() ==> final(self)@ == old(self)@ && r@ == Seq::<
                Seq<char>,
            >::empty(),
            grapheme_idx <= old(self)@.len() ==> final(self)@ == old(self)@.take(
                grapheme_idx as int,
            ) && r@ == old(self)@.skip(grapheme_idx as int),
    {
        proof {
            use_type_invariant(&*self);
        }
        if grapheme_idx > self.fragments.len() {
            return Self::default();
        }
        let ghost frags = self.fragments@;
        let mut fragments = Vec::new();
        std::mem::swap(&mut fragments, &mut self.fragments);
        let rest = fragments.split_off(grapheme_idx);
        self.fragments = fragments;
        let r = Line { fragments: rest };
        proof {
            assert(self@ =~= graphemes_of(frags).take(grapheme_idx as int));
            assert(r@ =~= graphemes_of(frags).skip(grapheme_idx as int));
        }
        r
    }

    /// The columns taken by the graphemes before `grapheme_idx` (all of them where the
    /// index is past the end). The sum saturates at `usize::MAX`.
    pub fn width_until(&self, grapheme_idx: usize) -> (r: usize)
        ensures
            r == column_of(
                self@,
                if grapheme_idx < self@.len() {
                    grapheme_idx as int
                } else {
                    self@.len() as int
                },
            ),
    {
        proof {
            use_type_invariant(self);
        }
        let n = self.fragments.len();
        let m = if grapheme_idx < n {
            grapheme_idx
        } else {
            n
        };
        let mut total: usize = 0;
        for i in 0..m
            invariant
                m <= n,
                n == self.fragments@.len(),
                forall|k: int| 0 <= k < n ==> fragment_wf(#[trigger] self.fragments@[k]),
                total == column_of(self@, i as int),
        {
            proof {
                assert(self@[i as int] == self.fragments@[i as int].grapheme@);
            }
            total = self.fragments[i].rendered_width.saturating_add(total);
        }
        total
    }
}

proof fn lemma_visible_prefix_stops(gs: Seq<Seq<char>>, i: int, k: int, start: usize, end: usize)
    requires
        0 <= i <= k <= gs.len(),
        column_of(gs, i) >= end,
    ensures
        visible_prefix(gs, k, start, end) == visible_prefix(gs, i, start, end),
    decreases k - i,
{
    if k > i {
        lemma_visible_prefix_stops(gs, i, k - 1, start, end);
        lemma_columns_monotone(gs, i, k - 1);
        assert(visible_piece(gs, k - 1, start, end) =~= seq![]);
        assert(visible_prefix(gs, k, start, end) =~= visible_prefix(gs, k - 1, start, end));
    }
}

proof fn lemma_columns_monotone(gs: Seq<Seq<char>>, i: int, k: int)
    requires
        0 <= i <= k,
    ensures
        columns_before(gs, i) <= columns_before(gs, k),
        column_of(gs, i) <= column_of(gs, k),
    decreases k - i,
{
    if k > i {
        lemma_columns_monotone(gs, i, k - 1);
    }
}

impl Line {
    /// What is drawn of the line in the columns `range`: each grapheme that lies whole in
    /// the range as shown, `⋯` for one that lies only partly in it.
    pub fn get_visible_graphemes(&self, range: Range<usize>) -> (r: String)
        ensures
            r@ == visible_text(self@, range.start, range.end),
    {
        proof {
            use_type_invariant(self);
        }
        let mut result = String::new();
        if range.start >= range.end {
            return result;
        }
        let start = range.start;
        let end = range.end;
        let ghost gs = self@;
        let n = self.fragments.len();
        let mut current_pos: usize = 0;
        let mut i: usize = 0;
        while i < n
            invariant
                gs == self@,
                n == self.fragments@.len(),
                i <= n,
                forall|k: int| 0 <= k < n ==> fragment_wf(#[trigger] self.fragments@[k]),
                current_pos == column_of(gs, i as int),
                result@ == visible_prefix(gs, i as int, start, end),
            ensures
                result@ == visible_prefix(gs, n as int, start, end),
            decreases n - i,
        {
            let f = &self.fragments[i];
            proof {
                assert(gs[i as int] == f.grapheme@);
            }
            let fragment_end = f.rendered_width.saturating_add(current_pos);
            if current_pos >= end {
                proof {
                    lemma_visible_prefix_stops(gs, i as int, n as int, start, end);
                }
                break;
            }
            if fragment_end > start {
                if fragment_end > end || current_pos < start {
                    push_char(&mut result, '\u{22ef}');
                } else {
                    match f.replacement {
                        Some(c) => push_char(&mut result, c),
                        None => result.append(f.grapheme.as_str()),
                    }
                }
            }
            proof {
                assert(result@ =~= visible_prefix(gs, i + 1, start, end));
            }
            current_pos = fragment_end;
            i = i + 1;
        }
        result
    }
}

} // verus!
