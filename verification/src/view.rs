use vstd::prelude::*;
use vstd::view::View as _;

use crate::buffer::{
    line_texts, lines_after_delete, lines_after_insert, lines_after_newline, lines_view,
    texts_after_delete, texts_after_insert, Buffer,
};
use crate::command::{Edit, Move};
use crate::documentstatus::DocumentStatus;
use crate::editor::{NAME, VERSION};
use crate::fileinfo::{no_name, shown_file_name};
use crate::line::{column_of, visible_text, Line};
use crate::terminal::{min_usize, sat_add, sat_sub, Position, Size};
use crate::text::{push_char, push_spaces, spaces};
use crate::uicomponent::UiComponent;
use vstd::string::StringExecFns;

verus! {

/// A place in the text: a line and a grapheme within it.
#[derive(Clone, Copy, Debug, PartialEq, Eq, Structural)]
pub struct Location {
    pub grapheme_idx: usize,
    pub line_idx: usize,
}

impl Default for Location {
    fn default() -> (r: Self)
        ensures
            r == (Location { grapheme_idx: 0, line_idx: 0 }),
    {
        Location { grapheme_idx: 0, line_idx: 0 }
    }
}

impl From<Location> for Position {
    fn from(loc: Location) -> (r: Self) {
        Position { col: loc.grapheme_idx, row: loc.line_idx }
    }
}

impl vstd::std_specs::convert::FromSpecImpl<Location> for Position {
    open spec fn obeys_from_spec() -> bool {
        true
    }

    open spec fn from_spec(loc: Location) -> Position {
        Position { col: loc.grapheme_idx, row: loc.line_idx }
    }
}

/// What a view holds: the text line by line (as graphemes), where it is stored, whether
/// it changed since it was saved, whether it must be drawn again, the size of its area,
/// the caret, and the scroll offset (the first row and column shown).
pub struct ViewModel {
    pub lines: Seq<Seq<Seq<char>>>,
    pub path: Option<String>,
    pub unsaved: bool,
    pub redraw: bool,
    pub size: Size,
    pub caret: Location,
    pub offset: Position,
}

/// The number of graphemes on line `l`, zero below the last line.
pub open spec fn line_len(lines: Seq<Seq<Seq<char>>>, l: usize) -> usize {
    if l < lines.len() {
        lines[l as int].len() as usize
    } else {
        0
    }
}

/// The new offset when a view of `extent` cells along one axis, starting at `offset`,
/// is scrolled to show `to`; and whether it moved.
pub open spec fn scroll_axis(offset: usize, to: usize, extent: usize) -> (usize, bool) {
    if to < offset {
        (to, true)
    } else if to >= sat_add(offset, extent) {
        (sat_add(sat_sub(to, extent), 1), true)
    } else {
        (offset, false)
    }
}

impl ViewModel {
    /// The caret moved to a grapheme of its line: the nearest one where it was past the end,
    /// the start below the last line.
    pub open spec fn snap_to_valid_grapheme(self) -> Self {
        let l = self.caret.line_idx;
        let g = if l < self.lines.len() {
            min_usize(self.lines[l as int].len() as usize, self.caret.grapheme_idx)
        } else {
            0
        };
        ViewModel { caret: Location { grapheme_idx: g, ..self.caret }, ..self }
    }

    /// The caret moved up to one past the last line at most.
    pub open spec fn snap_to_valid_line(self) -> Self {
        ViewModel {
            caret: Location {
                line_idx: min_usize(self.caret.line_idx, self.lines.len() as usize),
                ..self.caret
            },
            ..self
        }
    }

    pub open spec fn move_up(self, step: usize) -> Self {
        ViewModel {
            caret: Location { line_idx: sat_sub(self.caret.line_idx, step), ..self.caret },
            ..self
        }.snap_to_valid_grapheme()
    }

    pub open spec fn move_down(self, step: usize) -> Self {
        ViewModel {
            caret: Location { line_idx: sat_add(self.caret.line_idx, step), ..self.caret },
            ..self
        }.snap_to_valid_grapheme().snap_to_valid_line()
    }

    pub open spec fn move_to_line_start(self) -> Self {
        ViewModel { caret: Location { grapheme_idx: 0, ..self.caret }, ..self }
    }

    pub open spec fn move_to_line_end(self) -> Self {
        ViewModel {
            caret: Location {
                grapheme_idx: line_len(self.lines, self.caret.line_idx),
                ..self.caret
            },
            ..self
        }
    }

    pub open spec fn move_left(self) -> Self {
        if self.caret.grapheme_idx > 0 {
            ViewModel {
                caret: Location {
                    grapheme_idx: (self.caret.grapheme_idx - 1) as usize,
                    ..self.caret
                },
                ..self
            }
        } else if self.caret.line_idx > 0 {
            self.move_up(1).move_to_line_end()
        } else {
            self
        }
    }

    pub open spec fn move_right(self) -> Self {
        if self.caret.grapheme_idx < line_len(self.lines, self.caret.line_idx) {
            ViewModel {
                caret: Location {
                    grapheme_idx: (self.caret.grapheme_idx + 1) as usize,
                    ..self.caret
                },
                ..self
            }
        } else {
            self.move_to_line_start().move_down(1)
        }
    }

    /// The caret moved as `direction` says, before scrolling.
    pub open spec fn moved(self, direction: Move) -> Self {
        let height = self.size.height;
        match direction {
            Move::PageUp => self.move_up(sat_sub(height, 1)),
            Move::PageDown => self.move_down(sat_sub(height, 1)),
            Move::StartOfLine => self.move_to_line_start(),
            Move::EndOfLine => self.move_to_line_end(),
            Move::Up => self.move_up(1),
            Move::Left => self.move_left(),
            Move::Right => self.move_right(),
            Move::Down => self.move_down(1),
        }
    }

    /// The column where the caret is drawn in the text, before scrolling.
    pub open spec fn caret_column(self) -> usize {
        let l = self.caret.line_idx;
        if l < self.lines.len() {
            let line = self.lines[l as int];
            column_of(
                line,
                if self.caret.grapheme_idx < line.len() {
                    self.caret.grapheme_idx as int
                } else {
                    line.len() as int
                },
            )
        } else {
            0
        }
    }

    /// The caret's place in the text, as a cell before scrolling.
    pub open spec fn text_position(self) -> Position {
        Position { col: self.caret_column(), row: self.caret.line_idx }
    }

    pub open spec fn scroll_vertically(self, to: usize) -> Self {
        let (row, changed) = scroll_axis(self.offset.row, to, self.size.height);
        ViewModel { offset: Position { row, ..self.offset }, redraw: self.redraw || changed, ..self }
    }

    pub open spec fn scroll_horizontally(self, to: usize) -> Self {
        let (col, changed) = scroll_axis(self.offset.col, to, self.size.width);
        ViewModel { offset: Position { col, ..self.offset }, redraw: self.redraw || changed, ..self }
    }

    /// The view scrolled so that the caret is in its area.
    pub open spec fn scrolled(self) -> Self {
        let pos = self.text_position();
        self.scroll_vertically(pos.row).scroll_horizontally(pos.col)
    }

    /// The view after a move command: the caret moved, then the view scrolled to it.
    pub open spec fn after_move(self, direction: Move) -> Self {
        self.moved(direction).scrolled()
    }

    /// Where the caret is drawn in the view's area.
    pub open spec fn caret_cell(self) -> Position {
        Position {
            col: sat_sub(self.caret_column(), self.offset.col),
            row: sat_sub(self.caret.line_idx, self.offset.row),
        }
    }

    /// The view after it is given `size`: the size set, then scrolled to the caret.
    pub open spec fn with_size(self, size: Size) -> Self {
        ViewModel { size, ..self }.scrolled()
    }

    /// The view after `c` is typed at the caret: the text changed, and the caret moved
    /// right where its line grew.
    pub open spec fn after_insert_char(self, c: char) -> Self {
        let l = self.caret.line_idx;
        let changed = ViewModel {
            lines: if l <= self.lines.len() {
                lines_after_insert(self.lines, c, self.caret)
            } else {
                self.lines
            },
            unsaved: self.unsaved || l <= self.lines.len(),
            ..self
        };
        let moved = if line_len(changed.lines, l) > line_len(self.lines, l) {
            changed.after_move(Move::Right)
        } else {
            changed
        };
        ViewModel { redraw: true, ..moved }
    }

    /// The view after the grapheme at the caret is deleted.
    pub open spec fn after_delete(self) -> Self {
        ViewModel {
            lines: lines_after_delete(self.lines, self.caret),
            unsaved: true,
            redraw: true,
            ..self
        }
    }

    /// The view after a backspace: nothing at the very start of the text, else the caret
    /// moves left and the grapheme there is deleted.
    pub open spec fn after_backspace(self) -> Self {
        if sat_add(self.caret.line_idx, self.caret.grapheme_idx) == 0 {
            self
        } else {
            self.after_move(Move::Left).after_delete()
        }
    }

    /// The view after a line break is put at the caret; the caret moves right past it.
    pub open spec fn after_newline(self) -> Self {
        let broken = ViewModel {
            lines: lines_after_newline(self.lines, self.caret),
            unsaved: true,
            ..self
        };
        ViewModel { redraw: true, ..broken.after_move(Move::Right) }
    }

    /// The view after an edit command.
    pub open spec fn after_edit(self, edit: Edit) -> Self {
        match edit {
            Edit::Insert(c) => self.after_insert_char(c),
            Edit::NewLine => self.after_newline(),
            Edit::Delete => self.after_delete(),
            Edit::Backspace => self.after_backspace(),
        }
    }
}

/// The text of each line after `edit` in the view `m`: a character typed into the text of
/// the caret's line (into a new last line where the caret is just below the last), the
/// caret's line cut in two at the caret, the grapheme at the caret deleted (or the next line
/// joined), or the grapheme before the caret deleted (or the caret's line joined to the one
/// above); nothing changes where the caret is further down or at the very start.
pub open spec fn texts_after_edit(m: ViewModel, edit: Edit) -> Seq<Seq<char>> {
    match edit {
        Edit::Insert(c) => if m.caret.line_idx <= m.lines.len() {
            texts_after_insert(m.lines, c, m.caret)
        } else {
            line_texts(m.lines)
        },
        Edit::NewLine => line_texts(lines_after_newline(m.lines, m.caret)),
        Edit::Delete => texts_after_delete(m.lines, m.caret),
        Edit::Backspace => if sat_add(m.caret.line_idx, m.caret.grapheme_idx) == 0 {
            line_texts(m.lines)
        } else {
            texts_after_delete(m.lines, m.after_move(Move::Left).caret)
        },
    }
}

/// The part of the screen that shows the text, with the caret and the scroll offset.
pub struct View {
    buffer: Buffer,
    needs_redraw: bool,
    size: Size,
    caret_location: Location,
    scroll_offset: Position,
}

impl View {
    /// Whether this view holds the same buffer, caret and size as `other`.
    pub closed spec fn same_text_and_caret(&self, other: View) -> bool {
        &&& self.buffer == other.buffer
        &&& self.caret_location == other.caret_location
        &&& self.size == other.size
    }

    /// What the view holds.
    pub closed spec fn model(&self) -> ViewModel {
        ViewModel {
            lines: self.buffer.view_lines(),
            path: self.buffer.file_info.path,
            unsaved: self.buffer.unsaved,
            redraw: self.needs_redraw,
            size: self.size,
            caret: self.caret_location,
            offset: self.scroll_offset,
        }
    }
}

impl View {
    /// The text of any view fits in memory: no more lines, nor graphemes in a line, than a
    /// `usize` counts.
    pub proof fn lemma_model_fits(&self)
        ensures
            self.model().fits(),
    {
        assert(self.model().lines.len() == self.buffer.lines.len());
        assert forall|i: int| 0 <= i < self.model().lines.len() implies (
        #[trigger] self.model().lines[i]).len() <= usize::MAX by {
            self.buffer.lines@[i].lemma_len_fits();
        }
    }
}

impl View {
    /// An empty view of `size`, marked to be drawn.
    pub fn new(size: Size) -> (r: Self)
        ensures
            r.model() == (ViewModel {
                lines: Seq::empty(),
                path: None,
                unsaved: false,
                redraw: true,
                size,
                caret: Location { grapheme_idx: 0, line_idx: 0 },
                offset: Position { col: 0, row: 0 },
            }),
    {
        let r = View {
            buffer: Buffer::default(),
            needs_redraw: true,
            size,
            caret_location: Location::default(),
            scroll_offset: Position::default(),
        };
        assert(r.model().lines =~= Seq::empty());
        r
    }

    /// The number of graphemes on line `l` (zero below the last line).
    fn line_grapheme_count(&self, l: usize) -> (r: usize)
        ensures
            r == line_len(self.model().lines, l),
    {
        if l < self.buffer.lines.len() {
            self.buffer.lines[l].grapheme_count()
        } else {
            0
        }
    }

    fn snap_to_valid_grapheme(&mut self)
        ensures
            final(self).model() == old(self).model().snap_to_valid_grapheme(),
    {
        let l = self.caret_location.line_idx;
        if l < self.buffer.lines.len() {
            let count = self.buffer.lines[l].grapheme_count();
            if count < self.caret_location.grapheme_idx {
                self.caret_location.grapheme_idx = count;
            }
        } else {
            self.caret_location.grapheme_idx = 0;
        }
    }

    fn snap_to_valid_line(&mut self)
        ensures
            final(self).model() == old(self).model().snap_to_valid_line(),
    {
        let height = self.buffer.height();
        if height < self.caret_location.line_idx {
            self.caret_location.line_idx = height;
        }
    }

    fn move_up(&mut self, step: usize)
        ensures
            final(self).model() == old(self).model().move_up(step),
    {
        self.caret_location.line_idx = self.caret_location.line_idx.saturating_sub(step);
        self.snap_to_valid_grapheme();
    }

    fn move_down(&mut self, step: usize)
        ensures
            final(self).model() == old(self).model().move_down(step),
    {
        self.caret_location.line_idx = self.caret_location.line_idx.saturating_add(step);
        self.snap_to_valid_grapheme();
        self.snap_to_valid_line();
    }

    fn move_left(&mut self)
        ensures
            final(self).model() == old(self).model().move_left(),
    {
        if self.caret_location.grapheme_idx > 0 {
            self.caret_location.grapheme_idx = self.caret_location.grapheme_idx - 1;
        } else if self.caret_location.line_idx > 0 {
            self.move_up(1);
            self.move_to_line_end();
        }
    }

    fn move_right(&mut self)
        ensures
            final(self).model() == old(self).model().move_right(),
    {
        let line_width = self.line_grapheme_count(self.caret_location.line_idx);
        if self.caret_location.grapheme_idx < line_width {
            self.caret_location.grapheme_idx = self.caret_location.grapheme_idx + 1;
        } else {
            self.move_to_line_start();
            self.move_down(1);
        }
    }

    fn move_to_line_start(&mut self)
        ensures
            final(self).model() == old(self).model().move_to_line_start(),
    {
        self.caret_location.grapheme_idx = 0;
    }

    fn move_to_line_end(&mut self)
        ensures
            final(self).model() == old(self).model().move_to_line_end(),
    {
        self.caret_location.grapheme_idx = self.line_grapheme_count(self.caret_location.line_idx);
    }

    /// Scrolls the rows so that row `to` is in view, marking the view to be drawn where the
    /// offset changed.
    pub fn scroll_vertically(&mut self, to: usize)
        ensures
            final(self).model() == old(self).model().scroll_vertically(to),
            final(self).same_text_and_caret(*old(self)),
    {
        let height = self.size.height;
        let offset_changed = if to < self.scroll_offset.row {
            self.scroll_offset.row = to;
            true
        } else if to >= self.scroll_offset.row.saturating_add(height) {
            self.scroll_offset.row = to.saturating_sub(height).saturating_add(1);
            true
        } else {
            false
        };
        self.needs_redraw = self.needs_redraw || offset_changed;
    }

    /// Scrolls the columns so that column `to` is in view, marking the view to be drawn where
    /// the offset changed.
    pub fn scroll_horizontally(&mut self, to: usize)
        ensures
            final(self).model() == old(self).model().scroll_horizontally(to),
            final(self).same_text_and_caret(*old(self)),
    {
        let width = self.size.width;
        let offset_changed = if to < self.scroll_offset.col {
            self.scroll_offset.col = to;
            true
        } else if to >= self.scroll_offset.col.saturating_add(width) {
            self.scroll_offset.col = to.saturating_sub(width).saturating_add(1);
            true
        } else {
            false
        };
        self.needs_redraw = self.needs_redraw || offset_changed;
    }

    fn scroll(&mut self)
        ensures
            final(self).model() == old(self).model().scrolled(),
            final(self).same_text_and_caret(*old(self)),
    {
        let pos = self.text_location_as_position();
        self.scroll_vertically(pos.row);
        self.scroll_horizontally(pos.col);
    }

    fn text_location_as_position(&self) -> (r: Position)
        ensures
            r == self.model().text_position(),
    {
        let row = self.caret_location.line_idx;
        let col = if row < self.buffer.lines.len() {
            self.buffer.lines[row].width_until(self.caret_location.grapheme_idx)
        } else {
            0
        };
        Position { col, row }
    }

    /// Where the caret is drawn in the view's area.
    pub fn caret_pos(&self) -> (r: Position)
        ensures
            r == self.model().caret_cell(),
    {
        self.text_location_as_position().saturating_sub(self.scroll_offset)
    }

    /// Moves the caret and scrolls the view to it; a caret in the text stays in it.
    pub fn handle_move_command(&mut self, direction: Move)
        ensures
            final(self).model() == old(self).model().after_move(direction),
            old(self).model().caret_valid() ==> final(self).model().caret_valid(),
    {
        proof {
            self.lemma_model_fits();
            if self.model().caret_valid() {
                lemma_move_keeps_caret_valid(self.model(), direction);
            }
        }
        let height = self.size.height;
        match direction {
            Move::PageUp => self.move_up(height.saturating_sub(1)),
            Move::PageDown => self.move_down(height.saturating_sub(1)),
            Move::StartOfLine => self.move_to_line_start(),
            Move::EndOfLine => self.move_to_line_end(),
            Move::Up => self.move_up(1),
            Move::Left => self.move_left(),
            Move::Right => self.move_right(),
            Move::Down => self.move_down(1),
        }
        self.scroll();
    }
}

impl View {
    /// The file name, line count, caret line and changed flag of the document.
    pub fn get_status(&self) -> (r: DocumentStatus)
        ensures
            r.file_name@ == shown_file_name(self.model().path),
            r.line_count == self.model().lines.len(),
            r.current_line == self.model().caret.line_idx,
            r.is_modified == self.model().unsaved,
    {
        DocumentStatus {
            file_name: self.buffer.file_info.display_name(),
            line_count: self.buffer.height(),
            current_line: self.caret_location.line_idx,
            is_modified: self.buffer.unsaved,
        }
    }

    /// Whether the text changed since it was last saved.
    pub fn has_unsaved_changed(&self) -> (r: bool)
        ensures
            r == self.model().unsaved,
    {
        self.get_status().is_modified
    }

    /// Whether the document has a file.
    pub fn has_path(&self) -> (r: bool)
        ensures
            r == self.model().path is Some,
    {
        self.buffer.file_info.path.is_some()
    }

    /// The path of the file, or `[No Name]`.
    pub fn get_file_name(&self) -> (r: String)
        ensures
            r@ == match self.model().path {
                Some(p) => p@,
                None => no_name(),
            },
    {
        match &self.buffer.file_info.path {
            Some(p) => p.clone(),
            None => "[No Name]".to_owned(),
        }
    }

    /// The text to write to the file: each line followed by a line break.
    pub fn contents(&self) -> (r: String)
        ensures
            r@ == crate::buffer::saved_text(
                crate::buffer::line_texts(self.model().lines),
            ),
    {
        self.buffer.contents()
    }

    /// Records the outcome of writing `contents()` to the file (see `Buffer::save`).
    pub fn save(&mut self, written: Result<(), String>) -> (r: Result<(), String>)
        ensures
            old(self).model().path is None ==> r is Ok && final(self).model() == old(self).model(),
            old(self).model().path is Some ==> r == written && final(self).model() == (
            ViewModel { unsaved: old(self).model().unsaved && written is Err, ..old(self).model() }),
    {
        self.buffer.save(written)
    }

    /// Shows the file `file_name` whose text is `contents`, marking the view to be drawn.
    pub fn load(&mut self, file_name: &str, contents: &str)
        ensures
            final(self).model() == (ViewModel {
                lines: crate::buffer::text_lines(contents@).map_values(
                    |t: Seq<char>| crate::line::grapheme_clusters(t),
                ),
                path: final(self).model().path,
                unsaved: false,
                redraw: true,
                ..old(self).model()
            }),
            final(self).model().path matches Some(p) && p@ == file_name@,
            crate::buffer::line_texts(final(self).model().lines) == crate::buffer::text_lines(
                contents@,
            ),
    {
        let buffer = Buffer::load(file_name, contents);
        self.buffer = buffer;
        self.needs_redraw = true;
    }

    /// Applies an edit command. Every edit keeps a caret in the text on a line of it or just
    /// below the last; a line break keeps it in the text, at the start of the next line.
    pub fn handle_edit_command(&mut self, edit: Edit)
        ensures
            final(self).model() == old(self).model().after_edit(edit),
            old(self).model().caret_valid() && old(self).model().lines.len() < usize::MAX
                ==> final(self).model().caret.line_idx <= final(self).model().lines.len(),
            edit == Edit::NewLine && old(self).model().caret_valid() && old(self).model().lines.len()
                < usize::MAX ==> final(self).model().caret_valid(),
            line_texts(final(self).model().lines) == texts_after_edit(old(self).model(), edit),
    {
        proof {
            self.lemma_model_fits();
            if self.model().caret_valid() && self.model().lines.len() < usize::MAX {
                lemma_edit_keeps_caret_line(self.model(), edit);
                if edit == Edit::NewLine {
                    lemma_newline_keeps_caret_valid(self.model());
                }
            }
        }
        match edit {
            Edit::Insert(ch) => self.insert_char(ch),
            Edit::NewLine => self.insert_newline(),
            Edit::Delete => self.delete(),
            Edit::Backspace => self.backspace(),
        }
    }

    fn insert_char(&mut self, c: char)
        ensures
            final(self).model() == old(self).model().after_insert_char(c),
            line_texts(final(self).model().lines) == texts_after_edit(
                old(self).model(),
                Edit::Insert(c),
            ),
    {
        let line_idx = self.caret_location.line_idx;
        let old_len = self.line_grapheme_count(line_idx);
        self.buffer.insert_char(c, self.caret_location);
        let new_len = self.line_grapheme_count(line_idx);
        if new_len > old_len {
            proof {
                lemma_move_keeps_text(self.model(), Move::Right);
            }
            self.handle_move_command(Move::Right);
        }
        self.needs_redraw = true;
    }

    fn delete(&mut self)
        ensures
            final(self).model() == old(self).model().after_delete(),
            line_texts(final(self).model().lines) == texts_after_delete(
                old(self).model().lines,
                old(self).model().caret,
            ),
    {
        self.buffer.delete(self.caret_location);
        self.needs_redraw = true;
    }

    fn backspace(&mut self)
        ensures
            final(self).model() == old(self).model().after_backspace(),
            line_texts(final(self).model().lines) == texts_after_edit(
                old(self).model(),
                Edit::Backspace,
            ),
    {
        if self.caret_location.line_idx.saturating_add(self.caret_location.grapheme_idx) == 0 {
            return ;
        }
        proof {
            lemma_move_keeps_text(self.model(), Move::Left);
        }
        self.handle_move_command(Move::Left);
        self.delete();
    }

    fn insert_newline(&mut self)
        ensures
            final(self).model() == old(self).model().after_newline(),
    {
        self.buffer.insert_newline(self.caret_location);
        self.handle_move_command(Move::Right);
        self.needs_redraw = true;
    }
}

/// The line that greets the user on an empty document.
pub open spec fn welcome_text() -> Seq<char> {
    NAME@ + " editor -- version "@ + VERSION@
}

/// The welcome row for an area `width` columns wide: a `~`, then the welcome text centred in
/// the remaining columns; just the `~` where the text does not fit; nothing for no columns.
pub open spec fn welcome_line(width: usize) -> Seq<char> {
    if width == 0 {
        seq![]
    } else {
        let remaining = width - 1;
        let msg = welcome_text();
        if remaining < msg.len() {
            seq!['~']
        } else {
            let pad = (remaining - msg.len()) as nat;
            seq!['~'] + spaces(pad / 2) + msg + spaces((pad + 1) / 2)
        }
    }
}

impl ViewModel {
    /// What is drawn in screen row `current_row` for a view whose area starts at row
    /// `origin_y`: the visible part of a line of text; the welcome row a third of the way down
    /// an empty document; else `~`.
    pub open spec fn row_text(self, current_row: usize, origin_y: usize) -> Seq<char> {
        let line_idx = sat_add(sat_sub(current_row, origin_y), self.offset.row);
        if line_idx < self.lines.len() {
            visible_text(
                self.lines[line_idx as int],
                self.offset.col,
                sat_add(self.offset.col, self.size.width),
            )
        } else if current_row == self.size.height / 3 && self.lines.len() == 0 {
            welcome_line(self.size.width)
        } else {
            seq!['~']
        }
    }
}

impl View {
    fn build_welcome_message(width: usize) -> (r: String)
        ensures
            r@ == welcome_line(width),
    {
        if width == 0 {
            return String::new();
        }
        let mut welcome_message = String::new();
        welcome_message.append(NAME);
        welcome_message.append(" editor -- version ");
        welcome_message.append(VERSION);
        let len = welcome_message.unicode_len();
        let remaining_width = width.saturating_sub(1);
        if remaining_width < len {
            let r = "~".to_owned();
            proof {
                reveal_strlit("~");
                assert(r@ =~= seq!['~']);
            }
            return r;
        }
        let pad = remaining_width - len;
        let mut r = String::new();
        push_char(&mut r, '~');
        push_spaces(&mut r, pad / 2);
        r.append(welcome_message.as_str());
        push_spaces(&mut r, pad - pad / 2);
        proof {
            assert(pad - pad / 2 == (pad + 1) / 2);
            assert(r@ =~= welcome_line(width));
        }
        r
    }

    /// The rows to draw for the view's area starting at screen row `origin_y`, top to bottom.
    pub fn rows(&self, origin_y: usize) -> (r: Vec<String>)
        ensures
            r@.len() == sat_add(origin_y, self.model().size.height) - origin_y,
            forall|k: int|
                0 <= k < r@.len() ==> (#[trigger] r@[k])@ == self.model().row_text(
                    (origin_y + k) as usize,
                    origin_y,
                ),
    {
        let height = self.size.height;
        let width = self.size.width;
        let end_y = origin_y.saturating_add(height);
        let top_third = height / 3;
        let scroll_top = self.scroll_offset.row;
        let mut rows: Vec<String> = Vec::new();
        for current_row in origin_y..end_y
            invariant
                rows@.len() == current_row - origin_y,
                height == self.model().size.height,
                width == self.model().size.width,
                top_third == height / 3,
                scroll_top == self.model().offset.row,
                forall|k: int|
                    0 <= k < rows@.len() ==> (#[trigger] rows@[k])@ == self.model().row_text(
                        (origin_y + k) as usize,
                        origin_y,
                    ),
        {
            let line_idx = current_row.saturating_sub(origin_y).saturating_add(scroll_top);
            let text = if line_idx < self.buffer.lines.len() {
                let left = self.scroll_offset.col;
                let right = self.scroll_offset.col.saturating_add(width);
                self.buffer.lines[line_idx].get_visible_graphemes(left..right)
            } else if current_row == top_third && self.buffer.is_empty() {
                Self::build_welcome_message(width)
            } else {
                let t = "~".to_owned();
                proof {
                    reveal_strlit("~");
                    assert(t@ =~= seq!['~']);
                }
                t
            };
            rows.push(text);
        }
        rows
    }
}

impl UiComponent for View {
    open spec fn redraw_flag(&self) -> bool {
        self.model().redraw
    }

    closed spec fn with_redraw(&self, value: bool) -> Self {
        View { needs_redraw: value, ..*self }
    }

    closed spec fn with_size(&self, size: Size) -> Self {
        let m = self.model().with_size(size);
        View { size, scroll_offset: m.offset, needs_redraw: m.redraw, ..*self }
    }

    fn mark_redraw(&mut self, value: bool)
        ensures
            final(self).model() == (ViewModel { redraw: value, ..old(self).model() }),
    {
        self.needs_redraw = value;
    }

    fn needs_redraw(&self) -> (r: bool)
        ensures
            r == self.model().redraw,
    {
        self.needs_redraw
    }

    /// Gives the view `size` and scrolls it to the caret.
    fn set_size(&mut self, size: Size)
        ensures
            final(self).model() == old(self).model().with_size(size),
    {
        self.size = size;
        self.scroll();
    }

    fn resize(&mut self, size: Size)
        ensures
            final(self).model() == (ViewModel { redraw: true, ..old(self).model().with_size(size) }),
    {
        self.set_size(size);
        self.mark_redraw(true);
    }
}

impl ViewModel {
    /// The lengths of the text fit in a `usize`, as those of any text held in memory do.
    pub open spec fn fits(self) -> bool {
        &&& self.lines.len() <= usize::MAX
        &&& forall|i: int| 0 <= i < self.lines.len() ==> (#[trigger] self.lines[i]).len() <= usize::MAX
    }

    /// The caret is on a line of the text, or just below the last one, and not past the end
    /// of its line.
    pub open spec fn caret_valid(self) -> bool {
        &&& self.caret.line_idx <= self.lines.len()
        &&& self.caret.grapheme_idx <= line_len(self.lines, self.caret.line_idx)
    }
}

proof fn lemma_scrolled_keeps_text(m: ViewModel)
    ensures
        m.scrolled().lines == m.lines,
        m.scrolled().caret == m.caret,
        m.scrolled().size == m.size,
        m.scrolled().path == m.path,
        m.scrolled().unsaved == m.unsaved,
{
}

proof fn lemma_scroll_axis_shows(offset: usize, to: usize, extent: usize)
    requires
        extent > 0,
    ensures
        scroll_axis(offset, to, extent).0 <= to,
        to - scroll_axis(offset, to, extent).0 < extent,
{
}

/// A move keeps the caret in the text: on a line of it or just below the last, and not past
/// the end of its line.
pub proof fn lemma_move_keeps_caret_valid(m: ViewModel, direction: Move)
    requires
        m.fits(),
        m.caret_valid(),
    ensures
        m.after_move(direction).caret_valid(),
{
    lemma_scrolled_keeps_text(m.moved(direction));
    let h = sat_sub(m.size.height, 1);
    match direction {
        Move::PageUp => lemma_move_up_valid(m, h),
        Move::PageDown => lemma_move_down_valid(m, h),
        Move::Up => lemma_move_up_valid(m, 1),
        Move::Down => lemma_move_down_valid(m, 1),
        Move::Left => {
            if m.caret.grapheme_idx == 0 && m.caret.line_idx > 0 {
                lemma_move_up_valid(m, 1);
            }
        },
        Move::Right => {
            if m.caret.grapheme_idx >= line_len(m.lines, m.caret.line_idx) {
                lemma_move_down_valid(m.move_to_line_start(), 1);
            }
        },
        _ => {},
    }
}

proof fn lemma_move_up_valid(m: ViewModel, step: usize)
    requires
        m.fits(),
        m.caret_valid(),
    ensures
        m.move_up(step).caret_valid(),
        m.move_up(step).lines == m.lines,
{
}

proof fn lemma_move_down_valid(m: ViewModel, step: usize)
    requires
        m.fits(),
        m.caret.line_idx <= m.lines.len(),
    ensures
        m.move_down(step).caret_valid(),
        m.move_down(step).lines == m.lines,
{
}

/// After scrolling, the caret is drawn inside the view's area.
pub proof fn lemma_scrolled_shows_caret(m: ViewModel)
    requires
        m.size.height > 0,
        m.size.width > 0,
    ensures
        m.scrolled().caret_cell().row < m.size.height,
        m.scrolled().caret_cell().col < m.size.width,
{
    let pos = m.text_position();
    lemma_scroll_axis_shows(m.offset.row, pos.row, m.size.height);
    let v = m.scroll_vertically(pos.row);
    lemma_scroll_axis_shows(v.offset.col, pos.col, m.size.width);
}

/// After any move, the caret is drawn inside the view's area (where the area is not empty).
pub proof fn lemma_move_shows_caret(m: ViewModel, direction: Move)
    requires
        m.size.height > 0,
        m.size.width > 0,
    ensures
        m.after_move(direction).caret_cell().row < m.size.height,
        m.after_move(direction).caret_cell().col < m.size.width,
{
    lemma_scrolled_shows_caret(m.moved(direction));
}

/// After a resize to a non-empty area, the caret is drawn inside it.
pub proof fn lemma_resize_shows_caret(m: ViewModel, size: Size)
    requires
        size.height > 0,
        size.width > 0,
    ensures
        m.with_size(size).caret_cell().row < size.height,
        m.with_size(size).caret_cell().col < size.width,
{
    lemma_scrolled_shows_caret(ViewModel { size, ..m });
}

/// A move changes neither the text nor where it is stored, nor whether it is saved.
pub proof fn lemma_move_keeps_text(m: ViewModel, direction: Move)
    ensures
        m.after_move(direction).lines == m.lines,
        m.after_move(direction).path == m.path,
        m.after_move(direction).unsaved == m.unsaved,
        m.after_move(direction).size == m.size,
{
    lemma_scrolled_keeps_text(m.moved(direction));
}

/// A resize changes neither the text nor the caret.
pub proof fn lemma_resize_keeps_text(m: ViewModel, size: Size)
    ensures
        m.with_size(size).lines == m.lines,
        m.with_size(size).caret == m.caret,
        m.with_size(size).unsaved == m.unsaved,
{
    lemma_scrolled_keeps_text(ViewModel { size, ..m });
}

/// An edit that changes the text marks the document as changed since it was saved; an edit
/// never marks it saved.
pub proof fn lemma_edit_marks_unsaved(m: ViewModel, edit: Edit)
    ensures
        m.after_edit(edit).lines != m.lines ==> m.after_edit(edit).unsaved,
        m.unsaved ==> m.after_edit(edit).unsaved,
{
    match edit {
        Edit::Insert(c) => {
            let l = m.caret.line_idx;
            let changed = ViewModel {
                lines: if l <= m.lines.len() {
                    lines_after_insert(m.lines, c, m.caret)
                } else {
                    m.lines
                },
                unsaved: m.unsaved || l <= m.lines.len(),
                ..m
            };
            lemma_move_keeps_text(changed, Move::Right);
        },
        Edit::NewLine => {
            let broken = ViewModel {
                lines: lines_after_newline(m.lines, m.caret),
                unsaved: true,
                ..m
            };
            lemma_move_keeps_text(broken, Move::Right);
        },
        Edit::Delete => {},
        Edit::Backspace => {
            lemma_move_keeps_text(m, Move::Left);
        },
    }
}

/// Where each move puts the caret in the text, for a caret in it: Page Down goes a page (the
/// view's height less one) down, and Page Up a page up, stopping at the ends of the text;
/// Up and Down go one line; Home and End go to the start and end of the line; Right goes one
/// grapheme right, or from the end of a line to the start of the next; Left goes one
/// grapheme left, or from the start of a line to the end of the one above.
pub proof fn lemma_move_targets(m: ViewModel)
    requires
        m.fits(),
        m.caret_valid(),
    ensures
        ({
            let l = m.caret.line_idx as int;
            let g = m.caret.grapheme_idx as int;
            let n = m.lines.len() as int;
            let page = if m.size.height > 0 {
                m.size.height - 1
            } else {
                0
            };
            let len_of = |i: int|
                if 0 <= i < n {
                    m.lines[i].len() as int
                } else {
                    0int
                };
            &&& m.after_move(Move::PageDown).caret.line_idx == if l + page < n {
                l + page
            } else {
                n
            }
            &&& m.after_move(Move::PageUp).caret.line_idx == if l >= page {
                l - page
            } else {
                0
            }
            &&& m.after_move(Move::Down).caret.line_idx == if l + 1 < n {
                l + 1
            } else {
                n
            }
            &&& m.after_move(Move::Up).caret.line_idx == if l >= 1 {
                l - 1
            } else {
                0
            }
            &&& m.after_move(Move::StartOfLine).caret.line_idx == l
            &&& m.after_move(Move::StartOfLine).caret.grapheme_idx == 0
            &&& m.after_move(Move::EndOfLine).caret.line_idx == l
            &&& m.after_move(Move::EndOfLine).caret.grapheme_idx == len_of(l)
            &&& g < len_of(l) ==> m.after_move(Move::Right).caret.line_idx == l
                && m.after_move(Move::Right).caret.grapheme_idx == g + 1
            &&& g >= len_of(l) && l < n ==> m.after_move(Move::Right).caret.line_idx == l + 1
                && m.after_move(Move::Right).caret.grapheme_idx == 0
            &&& g > 0 ==> m.after_move(Move::Left).caret.line_idx == l
                && m.after_move(Move::Left).caret.grapheme_idx == g - 1
            &&& g == 0 && l > 0 ==> m.after_move(Move::Left).caret.line_idx == l - 1
                && m.after_move(Move::Left).caret.grapheme_idx == len_of(l - 1)
        }),
{
    lemma_scrolled_keeps_text(m.moved(Move::PageDown));
    lemma_scrolled_keeps_text(m.moved(Move::PageUp));
    lemma_scrolled_keeps_text(m.moved(Move::Down));
    lemma_scrolled_keeps_text(m.moved(Move::Up));
    lemma_scrolled_keeps_text(m.moved(Move::StartOfLine));
    lemma_scrolled_keeps_text(m.moved(Move::EndOfLine));
    lemma_scrolled_keeps_text(m.moved(Move::Right));
    lemma_scrolled_keeps_text(m.moved(Move::Left));
}

/// The rows drawn show the text scrolled by the view's offset: row `k` of the area shows
/// line `offset.row + k`, from column `offset.col` on for the area's width; the rows below
/// the text show `~`, but for the welcome line a third of the way down an empty document.
pub proof fn lemma_rows_show_scrolled_lines(m: ViewModel, k: usize)
    requires
        m.fits(),
        k < m.size.height,
    ensures
        m.offset.row + k < m.lines.len() ==> m.row_text(k, 0) == visible_text(
            m.lines[m.offset.row + k],
            m.offset.col,
            if m.offset.col + m.size.width <= usize::MAX {
                (m.offset.col + m.size.width) as usize
            } else {
                usize::MAX
            },
        ),
        m.offset.row + k >= m.lines.len() && m.lines.len() > 0 ==> m.row_text(k, 0) == seq!['~'],
        m.lines.len() == 0 ==> m.row_text(k, 0) == if k == m.size.height / 3 {
            welcome_line(m.size.width)
        } else {
            seq!['~']
        },
{
}

/// The caret's line is drawn on the row where the caret is, for a caret on a line of the
/// text that is in view.
pub proof fn lemma_caret_row_shows_caret_line(m: ViewModel)
    requires
        m.caret.line_idx < m.lines.len(),
        m.offset.row <= m.caret.line_idx < m.offset.row + m.size.height,
    ensures
        m.caret_cell().row == m.caret.line_idx - m.offset.row,
        m.row_text(m.caret_cell().row, 0) == visible_text(
            m.lines[m.caret.line_idx as int],
            m.offset.col,
            if m.offset.col + m.size.width <= usize::MAX {
                (m.offset.col + m.size.width) as usize
            } else {
                usize::MAX
            },
        ),
{
}

/// Typing puts the character into the text of the caret's line at the caret; the other
/// lines keep their text.
pub proof fn lemma_typing_text(m: ViewModel, c: char)
    requires
        m.caret_valid(),
        m.caret.line_idx < m.lines.len(),
    ensures
        texts_after_edit(m, Edit::Insert(c)).len() == m.lines.len(),
        texts_after_edit(m, Edit::Insert(c))[m.caret.line_idx as int] == m.lines[m.caret.line_idx as int].take(
            m.caret.grapheme_idx as int,
        ).flatten().push(c) + m.lines[m.caret.line_idx as int].skip(
            m.caret.grapheme_idx as int,
        ).flatten(),
        forall|i: int|
            0 <= i < m.lines.len() && i != m.caret.line_idx ==> #[trigger] texts_after_edit(
                m,
                Edit::Insert(c),
            )[i] == m.lines[i].flatten(),
{
}

/// Delete takes out the grapheme at the caret, or at the end of a line joins the next line
/// to it; the other lines keep their text.
pub proof fn lemma_delete_text(m: ViewModel)
    requires
        m.caret_valid(),
        m.caret.line_idx < m.lines.len(),
    ensures
        ({
            let l = m.caret.line_idx as int;
            let g = m.caret.grapheme_idx as int;
            let line = m.lines[l];
            let deleted = texts_after_edit(m, Edit::Delete);
            &&& g < line.len() ==> deleted.len() == m.lines.len() && deleted[l] == line.take(
                g,
            ).flatten() + line.skip(g + 1).flatten()
            &&& g < line.len() ==> forall|i: int|
                0 <= i < m.lines.len() && i != l ==> #[trigger] deleted[i] == m.lines[i].flatten()
            &&& g == line.len() && l + 1 < m.lines.len() ==> deleted.len() == m.lines.len() - 1
                && deleted[l] == line.flatten() + m.lines[l + 1].flatten()
        }),
{
    let l = m.caret.line_idx as int;
    let g = m.caret.grapheme_idx as int;
    let line = m.lines[l];
    if g < line.len() {
        assert(line.remove(g) =~= line.take(g) + line.skip(g + 1));
        vstd::seq_lib::lemma_flatten_concat(line.take(g), line.skip(g + 1));
    }
}

/// Backspace takes out the grapheme before the caret, or at the start of a line joins it to
/// the line above.
pub proof fn lemma_backspace_text(m: ViewModel)
    requires
        m.fits(),
        m.caret_valid(),
        m.caret.line_idx < m.lines.len(),
    ensures
        ({
            let l = m.caret.line_idx as int;
            let g = m.caret.grapheme_idx as int;
            let line = m.lines[l];
            let erased = texts_after_edit(m, Edit::Backspace);
            &&& g > 0 ==> erased.len() == m.lines.len() && erased[l] == line.take(g - 1).flatten()
                + line.skip(g).flatten()
            &&& g == 0 && l > 0 ==> erased.len() == m.lines.len() - 1 && erased[l - 1]
                == m.lines[l - 1].flatten() + line.flatten()
        }),
{
    let l = m.caret.line_idx as int;
    let g = m.caret.grapheme_idx as int;
    let line = m.lines[l];
    lemma_move_keeps_text(m, Move::Left);
    let left = m.after_move(Move::Left);
    if g > 0 {
        lemma_scrolled_keeps_text(m.moved(Move::Left));
        assert(left.caret == Location { grapheme_idx: (g - 1) as usize, ..m.caret });
        assert(line.remove(g - 1) =~= line.take(g - 1) + line.skip(g));
        vstd::seq_lib::lemma_flatten_concat(line.take(g - 1), line.skip(g));
    } else if l > 0 {
        lemma_scrolled_keeps_text(m.moved(Move::Left));
        assert(left.caret == Location {
            grapheme_idx: m.lines[l - 1].len() as usize,
            line_idx: (l - 1) as usize,
        });
    }
}

/// Moving left takes back a move right, for a caret on a line of the text.
pub proof fn lemma_left_undoes_right(m: ViewModel)
    requires
        m.fits(),
        m.caret.line_idx < m.lines.len(),
        m.caret.grapheme_idx <= line_len(m.lines, m.caret.line_idx),
    ensures
        m.after_move(Move::Right).after_move(Move::Left).caret == m.caret,
{
    lemma_scrolled_keeps_text(m.moved(Move::Right));
    lemma_scrolled_keeps_text(m.after_move(Move::Right).moved(Move::Left));
}

/// Moving right takes back a move left, for a caret in the text other than at its very start.
pub proof fn lemma_right_undoes_left(m: ViewModel)
    requires
        m.fits(),
        m.caret_valid(),
        m.caret != (Location { grapheme_idx: 0, line_idx: 0 }),
    ensures
        m.after_move(Move::Left).after_move(Move::Right).caret == m.caret,
{
    lemma_scrolled_keeps_text(m.moved(Move::Left));
    lemma_scrolled_keeps_text(m.after_move(Move::Left).moved(Move::Right));
}

/// A line cut in two and put together again gives back its text.
pub proof fn lemma_split_join_text(gs: Seq<Seq<char>>, g: int)
    requires
        0 <= g <= gs.len(),
    ensures
        gs.take(g).flatten() + gs.skip(g).flatten() == gs.flatten(),
{
    vstd::seq_lib::lemma_flatten_concat(gs.take(g), gs.skip(g));
    assert(gs.take(g) + gs.skip(g) =~= gs);
}

proof fn lemma_newline_moves_to_next_line(m: ViewModel)
    requires
        m.fits(),
        m.lines.len() < usize::MAX,
        m.caret.line_idx < m.lines.len(),
        m.caret.grapheme_idx <= line_len(m.lines, m.caret.line_idx),
    ensures
        m.after_newline().caret == (Location {
            grapheme_idx: 0,
            line_idx: (m.caret.line_idx + 1) as usize,
        }),
        m.after_newline().lines == m.lines.update(
            m.caret.line_idx as int,
            m.lines[m.caret.line_idx as int].take(m.caret.grapheme_idx as int),
        ).insert(
            m.caret.line_idx + 1,
            m.lines[m.caret.line_idx as int].skip(m.caret.grapheme_idx as int),
        ),
{
    let l = m.caret.line_idx as int;
    let g = m.caret.grapheme_idx as int;
    let line = m.lines[l];
    let broken = ViewModel { lines: lines_after_newline(m.lines, m.caret), unsaved: true, ..m };
    assert(broken.lines.len() == m.lines.len() + 1);
    assert(broken.lines[l] == line.take(g));
    assert(broken.lines[l + 1] == line.skip(g));
    assert(line_len(broken.lines, l as usize) == g);
    let started = broken.move_to_line_start();
    assert(started.caret == Location { grapheme_idx: 0, line_idx: l as usize });
    let down = started.move_down(1);
    assert(down.caret == Location { grapheme_idx: 0, line_idx: (l + 1) as usize });
    assert(broken.moved(Move::Right) == down);
    lemma_scrolled_keeps_text(down);
}

/// A line break keeps the caret in the text: the caret ends at the start of the line after
/// the break (where the text can take one more line).
pub proof fn lemma_newline_keeps_caret_valid(m: ViewModel)
    requires
        m.fits(),
        m.caret_valid(),
        m.lines.len() < usize::MAX,
    ensures
        m.after_newline().caret_valid(),
        m.after_newline().caret == (Location {
            grapheme_idx: 0,
            line_idx: (m.caret.line_idx + 1) as usize,
        }),
{
    let l = m.caret.line_idx as int;
    if l < m.lines.len() {
        lemma_newline_moves_to_next_line(m);
    } else {
        let broken = ViewModel { lines: lines_after_newline(m.lines, m.caret), unsaved: true, ..m };
        assert(broken.lines.len() == m.lines.len() + 1);
        assert(broken.lines[l] == Seq::<Seq<char>>::empty());
        assert(line_len(broken.lines, l as usize) == 0);
        let started = broken.move_to_line_start();
        let down = started.move_down(1);
        assert(down.caret == Location { grapheme_idx: 0, line_idx: (l + 1) as usize });
        assert(broken.moved(Move::Right) == down);
        lemma_scrolled_keeps_text(down);
    }
    let n = m.after_newline();
    assert(n.lines.len() == m.lines.len() + 1);
}

proof fn lemma_move_keeps_caret_line(m: ViewModel, direction: Move)
    requires
        m.caret.line_idx <= m.lines.len(),
        m.lines.len() <= usize::MAX,
    ensures
        m.after_move(direction).caret.line_idx <= m.after_move(direction).lines.len(),
{
    lemma_scrolled_keeps_text(m.moved(direction));
}

/// Every edit keeps the caret on a line of the text or just below the last one. (Whether it
/// also stays within its line depends on how the edited text is cut into graphemes, except
/// for a line break: see `lemma_newline_keeps_caret_valid`.)
pub proof fn lemma_edit_keeps_caret_line(m: ViewModel, edit: Edit)
    requires
        m.fits(),
        m.caret_valid(),
        m.lines.len() < usize::MAX,
    ensures
        m.after_edit(edit).caret.line_idx <= m.after_edit(edit).lines.len(),
{
    match edit {
        Edit::Insert(c) => {
            let l = m.caret.line_idx;
            let changed = ViewModel {
                lines: if l <= m.lines.len() {
                    lines_after_insert(m.lines, c, m.caret)
                } else {
                    m.lines
                },
                unsaved: m.unsaved || l <= m.lines.len(),
                ..m
            };
            lemma_move_keeps_caret_line(changed, Move::Right);
        },
        Edit::NewLine => {
            lemma_newline_keeps_caret_valid(m);
        },
        Edit::Delete => {},
        Edit::Backspace => {
            lemma_move_keeps_caret_valid(m, Move::Left);
            lemma_move_keeps_text(m, Move::Left);
        },
    }
}

/// A backspace right after a line break takes it back: the text and the caret are as before,
/// where the caret was on a line of the text whose graphemes are those its text splits into
/// (and the text can take one more line).
pub proof fn lemma_backspace_undoes_newline(m: ViewModel)
    requires
        m.fits(),
        m.lines.len() < usize::MAX,
        m.caret.line_idx < m.lines.len(),
        m.caret.grapheme_idx <= line_len(m.lines, m.caret.line_idx),
        m.lines[m.caret.line_idx as int] == crate::line::grapheme_clusters(
            m.lines[m.caret.line_idx as int].flatten(),
        ),
    ensures
        m.after_newline().after_backspace().lines == m.lines,
        m.after_newline().after_backspace().caret == m.caret,
{
    let l = m.caret.line_idx as int;
    let g = m.caret.grapheme_idx as int;
    let line = m.lines[l];
    lemma_newline_moves_to_next_line(m);
    let n1 = m.after_newline();
    assert(n1.lines[l] == line.take(g));
    assert(n1.lines.len() == m.lines.len() + 1);
    let up = n1.move_up(1);
    assert(up.caret == Location { grapheme_idx: 0, line_idx: l as usize });
    let left = up.move_to_line_end();
    assert(left.caret == m.caret);
    assert(n1.moved(Move::Left) == left);
    lemma_scrolled_keeps_text(left);
    let n2 = n1.after_move(Move::Left);
    assert(n2.caret == m.caret);
    assert(n2.lines == n1.lines);
    lemma_split_join_text(line, g);
    assert(lines_after_delete(n2.lines, n2.caret) =~= m.lines);
}

/// A backspace right after a character is typed takes it back: the text and the caret are
/// as before, where the caret was on a line of the text, the character makes a grapheme of
/// its own there, and the line's graphemes are those its text splits into.
pub proof fn lemma_backspace_undoes_insert(m: ViewModel, c: char)
    requires
        m.fits(),
        m.caret.line_idx < m.lines.len(),
        m.caret.grapheme_idx <= line_len(m.lines, m.caret.line_idx),
        line_len(m.lines, m.caret.line_idx) < usize::MAX,
        crate::line::grapheme_clusters(
            crate::line::text_with_char(
                m.lines[m.caret.line_idx as int],
                c,
                m.caret.grapheme_idx,
            ),
        ) == m.lines[m.caret.line_idx as int].take(m.caret.grapheme_idx as int).push(seq![c])
            + m.lines[m.caret.line_idx as int].skip(m.caret.grapheme_idx as int),
        m.lines[m.caret.line_idx as int] == crate::line::grapheme_clusters(
            m.lines[m.caret.line_idx as int].flatten(),
        ),
    ensures
        m.after_insert_char(c).after_backspace().lines == m.lines,
        m.after_insert_char(c).after_backspace().caret == m.caret,
{
    let l = m.caret.line_idx as int;
    let g = m.caret.grapheme_idx as int;
    let line = m.lines[l];
    let grown = line.take(g).push(seq![c]) + line.skip(g);
    let changed = ViewModel {
        lines: lines_after_insert(m.lines, c, m.caret),
        unsaved: true,
        ..m
    };
    assert(changed.lines == m.lines.update(l, grown));
    assert(grown.len() == line.len() + 1);
    assert(line_len(changed.lines, l as usize) == line.len() + 1);
    let right = changed.moved(Move::Right);
    assert(right.caret == Location { grapheme_idx: (g + 1) as usize, line_idx: l as usize });
    lemma_scrolled_keeps_text(right);
    let m1 = m.after_insert_char(c);
    assert(m1.lines == changed.lines);
    assert(m1.caret == right.caret);
    let left = m1.moved(Move::Left);
    assert(left.caret == m.caret);
    lemma_scrolled_keeps_text(left);
    let m2 = m1.after_move(Move::Left);
    assert(grown.remove(g) =~= line);
    assert(lines_after_delete(m2.lines, m2.caret) =~= m.lines);
}

/// The welcome row fills an area that is wide enough for it.
pub proof fn lemma_welcome_fills_width(width: usize)
    requires
        width > welcome_text().len(),
    ensures
        welcome_line(width).len() == width,
{
}

} // verus!
