use vstd::prelude::*;
use vstd::view::View as _;
use vstd::string::StringExecFns;

use crate::command::{Command, Edit, Event, KeyEventKind, System};
use crate::documentstatus::{same_status, DocumentStatus};
use crate::fileinfo::{no_name, shown_file_name};
use crate::messagebar::{error_text, MessageBar};
use crate::statusbar::{beginning_cuttable, status_text, StatusBar};
use crate::style::{attribute_sequence, is_attribute_text, is_foreground_text, TextAttribute};
use crate::terminal::{sat_sub, Position, Size};
use crate::text::{decimal, push_decimal, push_spaces, spaces};
use crate::uicomponent::UiComponent;
use crate::view::{View, ViewModel};

verus! {

/// The editor's name.
pub const NAME: &'static str = "texteditor";

/// The editor's version.
pub const VERSION: &'static str = "0.1.0";

/// How many quit requests in a row close a document with unsaved changes.
pub const QUIT_CONFIRM_TIMES: u8 = 3;

/// What the caller learns after the editor handled an event: nothing to do, a file to write
/// (then report the outcome to `handle_save`), a new layout after a resize (the screen is
/// cleared before the next frame), or an event the editor does not take.
#[derive(Debug, Clone, Copy, PartialEq, Eq, Structural)]
pub enum EditorAction {
    Nothing,
    Save,
    Resized,
    Discarded,
}

/// Where the quit protocol stands: whether the editor is to quit, and how many quit
/// requests in a row it has turned down.
#[derive(Debug, Clone, Copy, PartialEq, Eq, Structural)]
pub struct QuitState {
    pub quitting: bool,
    pub confirmations: u8,
}

/// The quit protocol after a quit request: it quits at once where nothing is unsaved, else
/// on the request that completes `QUIT_CONFIRM_TIMES` in a row.
pub open spec fn after_quit_request(q: QuitState, unsaved: bool) -> QuitState {
    if !unsaved || q.confirmations + 1 == QUIT_CONFIRM_TIMES {
        QuitState { quitting: true, ..q }
    } else {
        QuitState { confirmations: (q.confirmations + 1) as u8, ..q }
    }
}

/// The warning shown while quit requests are turned down.
pub open spec fn quit_warning(remaining: nat) -> Seq<char> {
    "WARNING! File has unsaved changes. Press Ctrl-Q "@ + decimal(remaining) + " more times to quit"@
}

/// The window title for a file name.
pub open spec fn title_for(file_name: Seq<char>) -> Seq<char> {
    file_name + " - "@ + NAME@
}

/// The help text, with the terminal's reverse and reset sequences.
pub open spec fn help_text(rev: Seq<char>, res: Seq<char>) -> Seq<char> {
    rev + "<C-s>"@ + res + " save"@ + spaces(5) + rev + "<C-q>"@ + res + " quit"@
}

/// The size of the text area in a terminal of `size`: two rows go to the bars.
pub open spec fn text_area(size: Size) -> Size {
    Size { height: sat_sub(size.height, 2), width: size.width }
}

/// A row of text to print on the screen: its row, its text, and the attribute it is
/// printed in, if any.
#[derive(Debug, PartialEq, Eq)]
pub struct Paint {
    pub row: usize,
    pub text: String,
    pub attribute: Option<TextAttribute>,
}

/// What to put on the screen: the rows to print, in order, then where the caret goes.
#[derive(Debug)]
pub struct Frame {
    pub rows: Vec<Paint>,
    pub caret: Position,
}

/// A row to print as plain values.
pub open spec fn paint_view(p: Paint) -> (usize, Seq<char>, Option<TextAttribute>) {
    (p.row, p.text@, p.attribute)
}

/// The status row to print for `e`, given the terminal's width: where the screen has a row
/// for it above the message bar, the bar is marked and the width is known.
pub open spec fn status_paint(e: Editor, width: Option<usize>) -> Seq<
    (usize, Seq<char>, Option<TextAttribute>),
> {
    match width {
        Some(w) => if e.screen().height > 1 && e.status_flag() {
            seq![
                (
                    (e.screen().height - 2) as usize,
                    status_text(e.shown_status(), w),
                    Some(TextAttribute::Reverse),
                ),
            ]
        } else {
            Seq::empty()
        },
        None => Seq::empty(),
    }
}

/// The rows to print for `e` after the message bar's: the status row, then the text's.
pub open spec fn painted_after_message(e: Editor, width: Option<usize>) -> Seq<
    (usize, Seq<char>, Option<TextAttribute>),
> {
    status_paint(e, width) + view_paint(e)
}

/// The rows of the text to print for `e`, from the top: where the screen has room for them
/// above the bars and the view is marked.
pub open spec fn view_paint(e: Editor) -> Seq<(usize, Seq<char>, Option<TextAttribute>)> {
    if e.screen().height > 2 && e.view_model().redraw {
        Seq::new(
            e.view_model().size.height as nat,
            |k: int| (k as usize, e.view_model().row_text(k as usize, 0), None::<TextAttribute>),
        )
    } else {
        Seq::empty()
    }
}

/// The message bar of `after` as showing its message leaves it, coming from `before`: marked
/// to be drawn and no longer cleared where the message changed, else as it was.
pub open spec fn message_marks_follow(before: Editor, after: Editor) -> bool {
    if after.message() != before.message() {
        after.message_flag() && !after.message_cleared()
    } else {
        after.message_flag() == before.message_flag() && after.message_cleared()
            == before.message_cleared()
    }
}

/// What carrying out `command` does to the editor `before`, giving `after` and the action
/// `r`. A quit request goes through the quit protocol and warns while it turns requests down;
/// a resize lays the screen out again; any other command ends a run of quit requests (and
/// clears its warning), then moves go to the view, edits change the text, and a save is left
/// to the caller. The window title and the status shown stay as they were.
pub open spec fn processed(before: Editor, command: Command, after: Editor, r: EditorAction) -> bool {
    let q = before.quit_state();
    let reset = QuitState { confirmations: 0, ..q };
    let reset_message = if q.confirmations > 0 {
        Seq::<char>::empty()
    } else {
        before.message()
    };
    let unsaved = before.view_model().unsaved;
    &&& after.title() == before.title()
    &&& after.shown_status() == before.shown_status()
    &&& !(command is System && command->System_0 is Resize) ==> {
        &&& after.status_flag() == before.status_flag()
        &&& after.status_area() == before.status_area()
        &&& message_marks_follow(before, after)
    }
    &&& match command {
        Command::System(System::Quit) => {
            &&& after.quit_state() == after_quit_request(q, unsaved)
            &&& after.view_model() == before.view_model()
            &&& after.message() == if !unsaved || q.confirmations + 1 == QUIT_CONFIRM_TIMES {
                before.message()
            } else {
                quit_warning((QUIT_CONFIRM_TIMES - q.confirmations - 1) as nat)
            }
            &&& after.screen() == before.screen()
            &&& r == EditorAction::Nothing
        },
        Command::System(System::Resize(size)) => {
            &&& after.quit_state() == q
            &&& after.screen() == size
            &&& after.view_model() == (ViewModel {
                redraw: true,
                ..before.view_model().with_size(text_area(size))
            })
            &&& after.message() == before.message()
            &&& after.status_area() == (Size { height: 1, width: size.width })
            &&& after.status_flag()
            &&& after.message_flag()
            &&& after.message_cleared() == before.message_cleared()
            &&& r == EditorAction::Resized
        },
        Command::System(System::Save) => {
            &&& after.quit_state() == reset
            &&& after.view_model() == before.view_model()
            &&& after.message() == reset_message
            &&& after.screen() == before.screen()
            &&& r == EditorAction::Save
        },
        Command::Move(direction) => {
            &&& after.quit_state() == reset
            &&& after.view_model() == before.view_model().after_move(direction)
            &&& after.message() == reset_message
            &&& after.screen() == before.screen()
            &&& r == EditorAction::Nothing
        },
        Command::Edit(edit) => {
            &&& after.quit_state() == reset
            &&& after.view_model() == before.view_model().after_edit(edit)
            &&& after.message() == reset_message
            &&& after.screen() == before.screen()
            &&& r == EditorAction::Nothing
        },
    }
}

/// The editor: the text view, the status bar, the message bar and the quit protocol.
pub struct Editor {
    should_quit: bool,
    view: View,
    status_bar: StatusBar,
    message_bar: MessageBar,
    terminal_size: Size,
    title: String,
    quit_confirm: u8,
}

impl Editor {
    /// Whether the editor is well formed: it has turned down fewer quit requests in a row
    /// than it takes to quit.
    pub closed spec fn wf(&self) -> bool {
        self.quit_confirm < QUIT_CONFIRM_TIMES
    }

    /// Where the quit protocol stands.
    pub closed spec fn quit_state(&self) -> QuitState {
        QuitState { quitting: self.should_quit, confirmations: self.quit_confirm }
    }

    /// What the text view holds.
    pub closed spec fn view_model(&self) -> ViewModel {
        self.view.model()
    }

    /// The status the status bar shows.
    pub closed spec fn shown_status(&self) -> DocumentStatus {
        self.status_bar.status()
    }

    /// Whether the status bar is marked to be drawn.
    pub closed spec fn status_flag(&self) -> bool {
        self.status_bar.flag()
    }

    /// The size of the status bar.
    pub closed spec fn status_area(&self) -> Size {
        self.status_bar.area()
    }

    /// The message the message bar shows.
    pub closed spec fn message(&self) -> Seq<char> {
        self.message_bar.text()
    }

    /// Whether the message bar is marked to be drawn.
    pub closed spec fn message_flag(&self) -> bool {
        self.message_bar.flag()
    }

    /// Whether the message bar was drawn blank since its message expired.
    pub closed spec fn message_cleared(&self) -> bool {
        self.message_bar.cleared()
    }

    /// The size of the terminal.
    pub closed spec fn screen(&self) -> Size {
        self.terminal_size
    }

    /// The window title last set.
    pub closed spec fn title(&self) -> Seq<char> {
        self.title@
    }

    /// Whether the editor is to quit.
    pub fn should_quit(&self) -> (r: bool)
        ensures
            r == self.quit_state().quitting,
    {
        self.should_quit
    }

    /// The size of the terminal.
    pub fn terminal_size(&self) -> (r: Size)
        ensures
            r == self.screen(),
    {
        self.terminal_size
    }

    /// Lays the parts out in a terminal of `size`: the bars take a row each at the bottom,
    /// the text the rows above.
    fn resize(&mut self, size: Size)
        requires
            old(self).wf(),
        ensures
            final(self).wf(),
            final(self).screen() == size,
            final(self).status_area() == (Size { height: 1, width: size.width }),
            final(self).status_flag(),
            final(self).shown_status() == old(self).shown_status(),
            final(self).message() == old(self).message(),
            final(self).view_model() == (ViewModel {
                redraw: true,
                ..old(self).view_model().with_size(text_area(size))
            }),
            final(self).quit_state() == old(self).quit_state(),
            final(self).title() == old(self).title(),
            final(self).message_flag(),
            final(self).message_cleared() == old(self).message_cleared(),
    {
        self.terminal_size = size;
        self.status_bar.resize(Size { height: 1, width: size.width });
        self.message_bar.resize(Size { height: 1, width: size.width });
        self.view.resize(Size { height: size.height.saturating_sub(2), width: size.width });
    }

    /// Shows the view's status in the status bar, and returns the window title to set where
    /// it differs from the one set last; once it is set, the caller reports it to
    /// `title_applied`.
    pub fn refresh_status(&mut self) -> (r: Option<String>)
        requires
            old(self).wf(),
        ensures
            final(self).wf(),
            same_status(old(self).shown_status(), final(self).shown_status()) ==> final(self).status_flag()
                == old(self).status_flag(),
            !same_status(old(self).shown_status(), final(self).shown_status()) ==> final(self).status_flag(),
            final(self).status_area() == old(self).status_area(),
            final(self).shown_status().file_name@ == shown_file_name(
                old(self).view_model().path,
            ),
            final(self).shown_status().line_count == old(self).view_model().lines.len(),
            final(self).shown_status().current_line == old(self).view_model().caret.line_idx,
            final(self).shown_status().is_modified == old(self).view_model().unsaved,
            final(self).view_model() == old(self).view_model(),
            final(self).message() == old(self).message(),
            final(self).quit_state() == old(self).quit_state(),
            final(self).title() == old(self).title(),
            final(self).screen() == old(self).screen(),
            ({
                let t = title_for(shown_file_name(old(self).view_model().path));
                &&& t != old(self).title() ==> (r matches Some(s) && s@ == t)
                &&& t == old(self).title() ==> r is None
            }),
    {
        let status = self.view.get_status();
        let mut title = status.file_name.clone();
        title.append(" - ");
        title.append(NAME);
        self.status_bar.update_status(status);
        if !crate::text::str_eq(title.as_str(), self.title.as_str()) {
            Some(title)
        } else {
            None
        }
    }

    /// Records that the window title is now `title`.
    pub fn title_applied(&mut self, title: String)
        requires
            old(self).wf(),
        ensures
            final(self).wf(),
            final(self).title() == title@,
            final(self).view_model() == old(self).view_model(),
            final(self).message() == old(self).message(),
            final(self).quit_state() == old(self).quit_state(),
            final(self).shown_status() == old(self).shown_status(),
            final(self).status_flag() == old(self).status_flag(),
            final(self).status_area() == old(self).status_area(),
            final(self).screen() == old(self).screen(),
            final(self).message_flag() == old(self).message_flag(),
            final(self).message_cleared() == old(self).message_cleared(),
    {
        self.title = title;
    }

    /// Shows the view's status in the status bar.
    pub fn update_status_bar(&mut self)
        requires
            old(self).wf(),
        ensures
            final(self).wf(),
            final(self).shown_status().file_name@ == shown_file_name(
                old(self).view_model().path,
            ),
            final(self).shown_status().line_count == old(self).view_model().lines.len(),
            final(self).shown_status().current_line == old(self).view_model().caret.line_idx,
            final(self).shown_status().is_modified == old(self).view_model().unsaved,
            final(self).view_model() == old(self).view_model(),
            final(self).message() == old(self).message(),
            final(self).quit_state() == old(self).quit_state(),
            final(self).screen() == old(self).screen(),
            final(self).title() == old(self).title(),
            final(self).status_area() == old(self).status_area(),
            same_status(old(self).shown_status(), final(self).shown_status()) ==> final(self).status_flag()
                == old(self).status_flag(),
            !same_status(old(self).shown_status(), final(self).shown_status()) ==> final(self).status_flag(),
    {
        let status = self.view.get_status();
        self.status_bar.update_status(status);
    }

    /// Ends a run of quit requests: a command other than quit or resize clears the count and
    /// the warning.
    fn reset_quit_times(&mut self)
        requires
            old(self).wf(),
        ensures
            final(self).wf(),
            final(self).quit_state() == (QuitState {
                confirmations: 0,
                ..old(self).quit_state()
            }),
            old(self).quit_state().confirmations > 0 ==> final(self).message() == Seq::<
                char,
            >::empty(),
            old(self).quit_state().confirmations == 0 ==> final(self).message() == old(self).message(),
            final(self).view_model() == old(self).view_model(),
            final(self).shown_status() == old(self).shown_status(),
            final(self).status_flag() == old(self).status_flag(),
            final(self).status_area() == old(self).status_area(),
            final(self).title() == old(self).title(),
            final(self).screen() == old(self).screen(),
            message_marks_follow(*old(self), *final(self)),
    {
        if self.quit_confirm > 0 {
            self.quit_confirm = 0;
            self.message_bar.update_message("");
            proof {
                reveal_strlit("");
            }
        }
    }

    /// A quit request: quits where nothing is unsaved or the request completes the run,
    /// else counts it and warns how many more are needed.
    fn handle_quit(&mut self)
        requires
            old(self).wf(),
        ensures
            final(self).wf(),
            final(self).quit_state() == after_quit_request(
                old(self).quit_state(),
                old(self).view_model().unsaved,
            ),
            ({
                let closes = !old(self).view_model().unsaved || old(self).quit_state().confirmations
                    + 1 == QUIT_CONFIRM_TIMES;
                &&& !closes ==> final(self).message() == quit_warning(
                    (QUIT_CONFIRM_TIMES - old(self).quit_state().confirmations - 1) as nat,
                )
                &&& closes ==> final(self).message() == old(self).message()
            }),
            final(self).view_model() == old(self).view_model(),
            final(self).shown_status() == old(self).shown_status(),
            final(self).status_flag() == old(self).status_flag(),
            final(self).status_area() == old(self).status_area(),
            final(self).title() == old(self).title(),
            final(self).screen() == old(self).screen(),
            message_marks_follow(*old(self), *final(self)),
    {
        if !self.view.has_unsaved_changed() || self.quit_confirm + 1 == QUIT_CONFIRM_TIMES {
            self.should_quit = true;
        } else if self.view.has_unsaved_changed() {
            let mut warning = String::new();
            warning.append("WARNING! File has unsaved changes. Press Ctrl-Q ");
            push_decimal(&mut warning, (QUIT_CONFIRM_TIMES - self.quit_confirm - 1) as usize);
            warning.append(" more times to quit");
            self.message_bar.update_message(warning.as_str());
            self.quit_confirm = self.quit_confirm + 1;
        }
    }

    /// The file to write for a save, with the text to write: none where the document has no
    /// file.
    pub fn file_to_save(&self) -> (r: Option<(String, String)>)
        ensures
            match r {
                Some((path, text)) => (self.view_model().path matches Some(p) && path@ == p@)
                    && text@ == crate::buffer::saved_text(
                    crate::buffer::line_texts(self.view_model().lines),
                ),
                None => self.view_model().path is None,
            },
    {
        let name = self.view.get_file_name();
        if self.view.has_path() {
            Some((name, self.view.contents()))
        } else {
            None
        }
    }

    /// Reports the outcome of writing the file: on success the document counts as saved and
    /// a confirmation is shown; on failure the error is shown in red.
    pub fn handle_save(&mut self, written: Result<(), String>)
        requires
            old(self).wf(),
        ensures
            final(self).wf(),
            final(self).quit_state() == old(self).quit_state(),
            final(self).view_model().lines == old(self).view_model().lines,
            final(self).view_model().caret == old(self).view_model().caret,
            final(self).view_model().path == old(self).view_model().path,
            final(self).view_model().redraw == old(self).view_model().redraw,
            final(self).view_model().size == old(self).view_model().size,
            final(self).view_model().offset == old(self).view_model().offset,
            final(self).shown_status() == old(self).shown_status(),
            final(self).status_flag() == old(self).status_flag(),
            final(self).status_area() == old(self).status_area(),
            final(self).title() == old(self).title(),
            final(self).screen() == old(self).screen(),
            message_marks_follow(*old(self), *final(self)),
            old(self).view_model().path is Some && written is Ok ==> !final(self).view_model().unsaved,
            written is Err || old(self).view_model().path is None ==> final(self).view_model().unsaved == old(self).view_model().unsaved,
            (old(self).view_model().path is None || written is Ok) ==> final(self).message()
                == "file saved succsefully!"@,
            old(self).view_model().path matches Some(p) ==> (written matches Err(e) ==> exists|
                red: Seq<char>,
                reset: Seq<char>,
            |
                {
                    &&& is_foreground_text(204, 36, 29, red)
                    &&& is_attribute_text(TextAttribute::Reset, reset)
                    &&& #[trigger] error_text(
                        red,
                        "Error writing to file "@ + p@ + "! "@ + e@,
                        reset,
                    ) == final(self).message()
                }),
    {
        let e = self.view.save(written);
        match e {
            Ok(()) => {
                self.message_bar.update_message("file saved succsefully!");
            },
            Err(err) => {
                let mut text = String::new();
                text.append("Error writing to file ");
                let name = self.view.get_file_name();
                text.append(name.as_str());
                text.append("! ");
                text.append(err.as_str());
                self.message_bar.update_error(text.as_str());
            },
        }
    }

    /// Carries out a command. A quit request goes through the quit protocol; a resize lays
    /// the screen out again; any other command first ends a run of quit requests. Moves and
    /// edits go to the view; a save is left to the caller, as the returned action says.
    pub fn process_command(&mut self, command: Command) -> (r: EditorAction)
        requires
            old(self).wf(),
        ensures
            final(self).wf(),
            processed(*old(self), command, *final(self), r),
    {
        match command {
            Command::System(System::Quit) => self.handle_quit(),
            Command::System(System::Resize(size)) => self.resize(size),
            _ => self.reset_quit_times(),
        }
        match command {
            Command::System(System::Quit) => EditorAction::Nothing,
            Command::System(System::Resize(_)) => EditorAction::Resized,
            Command::System(System::Save) => EditorAction::Save,
            Command::Move(direction) => {
                self.view.handle_move_command(direction);
                EditorAction::Nothing
            },
            Command::Edit(edit) => {
                self.view.handle_edit_command(edit);
                EditorAction::Nothing
            },
        }
    }

    /// Handles an event of the terminal: key releases are ignored; keys and resizes that
    /// make a command are carried out; events that are neither keys nor resizes are
    /// discarded, as the returned action says.
    pub fn evaluate_event(&mut self, event: &Event) -> (r: EditorAction)
        requires
            old(self).wf(),
        ensures
            final(self).wf(),
            event is Other ==> r == EditorAction::Discarded && *final(self) == *old(self),
            event matches Event::Key(ke) && ke.kind == KeyEventKind::Release ==> r
                == EditorAction::Nothing && *final(self) == *old(self),
            crate::command::command_for(*event) is Err ==> *final(self) == *old(self),
            event !is Other && crate::command::command_for(*event) is Err ==> r
                == EditorAction::Nothing,
            event is Resize || (event matches Event::Key(ke) && ke.kind != KeyEventKind::Release)
                ==> (crate::command::command_for(*event) matches Ok(command) ==> processed(
                *old(self),
                command,
                *final(self),
                r,
            )),
    {
        let should_process = match event {
            Event::Key(ke) => {
                if ke.kind == KeyEventKind::Release {
                    return EditorAction::Nothing;
                }
                true
            },
            Event::Resize(_, _) => true,
            Event::Other => false,
        };
        if should_process {
            match Command::try_from(event) {
                Ok(command) => self.process_command(command),
                Err(_) => EditorAction::Nothing,
            }
        } else {
            EditorAction::Discarded
        }
    }
}

impl Editor {
    /// The editor for a terminal of `size`, showing the file given (its name, and its text or
    /// the error met reading it), with the help text in the message bar, or the error in red
    /// where the file could not be read. The caller then sets the window title that
    /// `refresh_status` returns.
    pub fn new(size: Size, file: Option<(String, Result<String, String>)>) -> (r: Editor)
        ensures
            r.wf(),
            r.quit_state() == (QuitState { quitting: false, confirmations: 0 }),
            r.screen() == size,
            r.title() == Seq::<char>::empty(),
            r.view_model().caret == (crate::view::Location { grapheme_idx: 0, line_idx: 0 }),
            !r.view_model().unsaved,
            r.view_model().redraw,
            r.view_model().size == text_area(size),
            match file {
                Some((name, Ok(text))) => r.view_model().lines == crate::buffer::text_lines(
                    text@,
                ).map_values(|t: Seq<char>| crate::line::grapheme_clusters(t)) && (r.view_model().path matches Some(p) && p@ == name@),
                _ => r.view_model().lines.len() == 0 && r.view_model().path is None,
            },
            r.shown_status().file_name@ == shown_file_name(r.view_model().path),
            r.shown_status().line_count == r.view_model().lines.len(),
            r.shown_status().current_line == 0,
            !r.shown_status().is_modified,
            r.status_area() == (Size { height: 1, width: size.width }),
            r.status_flag(),
            file matches Some((name, Err(e))) ==> exists|red: Seq<char>, reset: Seq<char>|
                {
                    &&& is_foreground_text(204, 36, 29, red)
                    &&& is_attribute_text(TextAttribute::Reset, reset)
                    &&& #[trigger] error_text(
                        red,
                        "Failed to load file "@ + name@ + "! "@ + e@ + " "@ + no_name(),
                        reset,
                    ) == r.message()
                },
            file matches Some((_, Err(_))) || exists|rev: Seq<char>, res: Seq<char>|
                {
                    &&& is_attribute_text(TextAttribute::Reverse, rev)
                    &&& is_attribute_text(TextAttribute::Reset, res)
                    &&& #[trigger] help_text(rev, res) == r.message()
                },
    {
        let mut editor = Editor {
            should_quit: false,
            view: View::new(size),
            status_bar: StatusBar::default(),
            message_bar: MessageBar::default(),
            terminal_size: Size::default(),
            title: String::new(),
            quit_confirm: 0,
        };
        editor.resize(size);
        let mut failure: Option<(String, String)> = None;
        match file {
            Some((name, Ok(text))) => {
                editor.view.load(name.as_str(), text.as_str());
            },
            Some((name, Err(e))) => {
                failure = Some((name, e));
            },
            None => {},
        }
        let rev = attribute_sequence(TextAttribute::Reverse);
        let res = attribute_sequence(TextAttribute::Reset);
        let mut help = rev.clone();
        help.append("<C-s>");
        help.append(res.as_str());
        help.append(" save");
        push_spaces(&mut help, 5);
        help.append(rev.as_str());
        help.append("<C-q>");
        help.append(res.as_str());
        help.append(" quit");
        assert(help@ == help_text(rev@, res@));
        editor.message_bar.update_message(help.as_str());
        if let Some((name, e)) = failure {
            let mut text = String::new();
            text.append("Failed to load file ");
            text.append(name.as_str());
            text.append("! ");
            text.append(e.as_str());
            text.append(" ");
            let file_name = editor.view.get_file_name();
            text.append(file_name.as_str());
            editor.message_bar.update_error(text.as_str());
        }
        editor.update_status_bar();
        editor
    }

    /// Whether the status bar is marked to be drawn in the next frame.
    pub fn status_bar_needs_redraw(&self) -> (r: bool)
        ensures
            r == self.status_flag(),
    {
        self.status_bar.needs_redraw()
    }

    /// The status line for a terminal `width` columns wide; none where its left part would
    /// have to be cut inside a character.
    pub fn status_bar_line(&self, width: usize) -> (r: Option<String>)
        ensures
            r is Some <==> beginning_cuttable(self.shown_status(), width),
            r matches Some(line) ==> line@ == status_text(self.shown_status(), width),
    {
        if self.status_bar.can_cut_to(width) {
            Some(self.status_bar.status_line(width))
        } else {
            None
        }
    }

    /// What to put on the screen now, given the terminal's width as last read (`None` where
    /// it could not be read): the message bar in bold on the bottom row, where it is due (it
    /// is when marked, and once more when its message expires); the status bar in reverse
    /// above it, where there is room, it is marked and the width is known; the rows of the
    /// text above those, where there is room and the view is marked; then where the caret
    /// goes. Nothing where the screen has no cells. Each part drawn stays marked to be drawn
    /// again.
    pub fn refresh_screen(&mut self, status_width: Option<usize>) -> (r: Option<Frame>)
        requires
            old(self).wf(),
            status_width matches Some(w) ==> (old(self).screen().height > 1
                && old(self).status_flag() ==> beginning_cuttable(old(self).shown_status(), w)),
        ensures
            final(self).wf(),
            final(self).view_model() == old(self).view_model(),
            final(self).message() == old(self).message(),
            final(self).shown_status() == old(self).shown_status(),
            final(self).status_flag() == old(self).status_flag(),
            final(self).status_area() == old(self).status_area(),
            final(self).quit_state() == old(self).quit_state(),
            final(self).title() == old(self).title(),
            final(self).screen() == old(self).screen(),
            r is None <==> (old(self).screen().height == 0 || old(self).screen().width == 0),
            r is None ==> *final(self) == *old(self),
            r matches Some(f) ==> f.caret == old(self).view_model().caret_cell(),
            r matches Some(f) ==> ({
                let rest = painted_after_message(*old(self), status_width);
                let n = f.rows@.len();
                &&& n == rest.len() || n == rest.len() + 1
                &&& old(self).message_flag() ==> n == rest.len() + 1
                &&& !old(self).message_flag() && old(self).message_cleared() ==> n == rest.len()
                &&& final(self).message_flag() == (old(self).message_flag() || n == rest.len() + 1)
                &&& n == rest.len() + 1 ==> ({
                    let m = paint_view(f.rows@[0]);
                    &&& m.0 == old(self).screen().height - 1
                    &&& (m.1 == Seq::<char>::empty() && final(self).message_cleared()) || (m.1
                        == old(self).message() && final(self).message_cleared()
                        == old(self).message_cleared())
                    &&& m.2 == Some(TextAttribute::Bold)
                })
                &&& n == rest.len() ==> final(self).message_cleared() == old(self).message_cleared()
                &&& forall|k: int|
                    0 <= k < rest.len() ==> paint_view(#[trigger] f.rows@[n - rest.len() + k])
                        == rest[k]
            }),
    {
        if self.terminal_size.height == 0 || self.terminal_size.width == 0 {
            return None;
        }
        let ghost before = *self;
        let ghost st = status_paint(before, status_width);
        let ghost vw = view_paint(before);
        let height = self.terminal_size.height;
        let mut rows: Vec<Paint> = Vec::new();
        if self.message_bar.needs_redraw() {
            let text = self.message_bar.text_to_draw();
            rows.push(Paint { row: height - 1, text, attribute: Some(TextAttribute::Bold) });
            self.message_bar.mark_redraw(true);
        }
        let ghost head = rows@;
        assert(head.len() <= 1);
        assert(head.len() == 1 ==> {
            let m = paint_view(head[0]);
            &&& m.0 == before.screen().height - 1
            &&& m.1 == before.message() || m.1 == Seq::<char>::empty()
            &&& m.2 == Some(TextAttribute::Bold)
        });
        if height > 1 {
            if let Some(width) = status_width {
                if self.status_bar.needs_redraw() {
                    let line = self.status_bar.status_line(width);
                    rows.push(
                        Paint { row: height - 2, text: line, attribute: Some(TextAttribute::Reverse) },
                    );
                    self.status_bar.mark_redraw(false);
                    self.status_bar.mark_redraw(true);
                }
            }
        }
        assert(rows@.len() == head.len() + st.len());
        assert(forall|j: int| 0 <= j < head.len() ==> rows@[j] == head[j]);
        assert(forall|k: int| 0 <= k < st.len() ==> paint_view(#[trigger] rows@[head.len() + k]) == st[k]);
        assert(self.view.model() == before.view_model());
        let ghost mid = rows@;
        if height > 2 && self.view.needs_redraw() {
            let texts = self.view.rows(0);
            let ghost prefix = rows@;
            let count = texts.len();
            for k in 0..count
                invariant
                    count == texts@.len(),
                    rows@.len() == prefix.len() + k,
                    forall|j: int| 0 <= j < prefix.len() ==> rows@[j] == prefix[j],
                    forall|j: int|
                        0 <= j < k ==> paint_view(#[trigger] rows@[prefix.len() + j]) == (
                            j as usize,
                            texts@[j]@,
                            None::<TextAttribute>,
                        ),
            {
                let t = texts[k].clone();
                rows.push(Paint { row: k, text: t, attribute: None });
            }
            assert(vw.len() == count);
            assert forall|j: int| 0 <= j < vw.len() implies paint_view(
                #[trigger] rows@[head.len() + st.len() + j],
            ) == vw[j] by {
                assert(texts@[j]@ == before.view_model().row_text((0 + j) as usize, 0));
            }
            self.view.mark_redraw(true);
        } else {
            assert(vw.len() == 0);
        }
        assert(painted_after_message(before, status_width) =~= st + vw);
        assert(forall|j: int| 0 <= j < mid.len() ==> rows@[j] == mid[j]);
        assert(forall|j: int| 0 <= j < head.len() ==> rows@[j] == head[j]);
        assert(before == *old(self));
        assert forall|k: int| 0 <= k < st.len() + vw.len() implies paint_view(
            #[trigger] rows@[head.len() + k],
        ) == (st + vw)[k] by {
            if k >= st.len() {
                assert(rows@[head.len() + k] == rows@[head.len() + st.len() + (k - st.len())]);
            } else {
                assert(rows@[head.len() + k] == mid[head.len() + k]);
            }
        }
        Some(Frame { rows, caret: self.view.caret_pos() })
    }

    /// Where the caret is drawn on the screen.
    pub fn caret_pos(&self) -> (r: Position)
        ensures
            r == self.view_model().caret_cell(),
    {
        self.view.caret_pos()
    }
}

/// The quit protocol after `n` quit requests in a row.
pub open spec fn after_quit_requests(q: QuitState, unsaved: bool, n: nat) -> QuitState
    decreases n,
{
    if n == 0 {
        q
    } else {
        after_quit_request(after_quit_requests(q, unsaved, (n - 1) as nat), unsaved)
    }
}

/// Quit requests in a row always end in quitting: at once where nothing is unsaved; with
/// unsaved changes, only at the request that completes `QUIT_CONFIRM_TIMES` in a row.
pub proof fn lemma_quit_requests(q: QuitState, unsaved: bool)
    requires
        q.confirmations < QUIT_CONFIRM_TIMES,
        !q.quitting,
    ensures
        after_quit_requests(q, unsaved, (QUIT_CONFIRM_TIMES - q.confirmations) as nat).quitting,
        !unsaved ==> after_quit_request(q, unsaved).quitting,
        unsaved ==> forall|n: nat|
            n < QUIT_CONFIRM_TIMES - q.confirmations ==> !(#[trigger] after_quit_requests(
                q,
                unsaved,
                n,
            )).quitting,
{
    reveal_with_fuel(after_quit_requests, 4);
    if unsaved {
        assert forall|n: nat| n < QUIT_CONFIRM_TIMES - q.confirmations implies !(
        #[trigger] after_quit_requests(q, unsaved, n)).quitting by {
            if n == 1 {
                assert(after_quit_requests(q, unsaved, 0) == q);
            } else if n == 2 {
                assert(after_quit_requests(q, unsaved, 1) == after_quit_request(q, unsaved));
            }
        }
    }
}

/// The quit protocol as the editor carries it out, from an editor that has turned down no
/// quit request: with nothing unsaved the first request quits; with unsaved changes the
/// first two are turned down, warning that two and then one more are needed, and the third
/// quits.
pub proof fn lemma_editor_quits_after_warnings(
    e0: Editor,
    e1: Editor,
    e2: Editor,
    e3: Editor,
    r1: EditorAction,
    r2: EditorAction,
    r3: EditorAction,
)
    requires
        e0.quit_state() == (QuitState { quitting: false, confirmations: 0 }),
        processed(e0, Command::System(System::Quit), e1, r1),
        processed(e1, Command::System(System::Quit), e2, r2),
        processed(e2, Command::System(System::Quit), e3, r3),
    ensures
        !e0.view_model().unsaved ==> e1.quit_state().quitting,
        e0.view_model().unsaved ==> {
            &&& !e1.quit_state().quitting
            &&& e1.message() == quit_warning(2)
            &&& !e2.quit_state().quitting
            &&& e2.message() == quit_warning(1)
            &&& e3.quit_state().quitting
        },
{
}

/// Any command other than a quit request or a resize ends a run of quit requests: the count
/// goes back to zero, a pending quit warning is cleared, and whether the editor quits is
/// left as it was.
pub proof fn lemma_other_commands_end_quit_run(
    before: Editor,
    command: Command,
    after: Editor,
    r: EditorAction,
)
    requires
        processed(before, command, after, r),
        command != Command::System(System::Quit),
        !(command matches Command::System(System::Resize(_))),
    ensures
        after.quit_state().confirmations == 0,
        after.quit_state().quitting == before.quit_state().quitting,
        before.quit_state().confirmations > 0 ==> after.message() == Seq::<char>::empty(),
        before.quit_state().confirmations == 0 ==> after.message() == before.message(),
{
}

/// A command between quit requests starts the count again: with unsaved changes, a quit
/// request, an edit, and two more quit requests leave the editor running, warning that one
/// more request is needed.
pub proof fn lemma_edit_between_quits(
    e0: Editor,
    e1: Editor,
    e2: Editor,
    e3: Editor,
    e4: Editor,
    edit: Edit,
    r1: EditorAction,
    r2: EditorAction,
    r3: EditorAction,
    r4: EditorAction,
)
    requires
        e0.quit_state() == (QuitState { quitting: false, confirmations: 0 }),
        e0.view_model().unsaved,
        processed(e0, Command::System(System::Quit), e1, r1),
        processed(e1, Command::Edit(edit), e2, r2),
        processed(e2, Command::System(System::Quit), e3, r3),
        processed(e3, Command::System(System::Quit), e4, r4),
    ensures
        e2.quit_state() == (QuitState { quitting: false, confirmations: 0 }),
        e2.message() == Seq::<char>::empty(),
        !e3.quit_state().quitting,
        !e4.quit_state().quitting,
        e4.quit_state().confirmations == 2,
        e4.message() == quit_warning(1),
{
    crate::view::lemma_edit_marks_unsaved(e1.view_model(), edit);
}

} // verus!
