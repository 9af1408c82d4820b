use vstd::prelude::*;

use crate::terminal::Size;

verus! {

/// A caret movement.
#[derive(Debug, Clone, Copy, PartialEq, Eq, Structural)]
pub enum Move {
    PageUp,
    PageDown,
    StartOfLine,
    EndOfLine,
    Up,
    Left,
    Right,
    Down,
}

/// A change to the text.
#[derive(Debug, Clone, Copy, PartialEq, Eq, Structural)]
pub enum Edit {
    Insert(char),
    NewLine,
    Delete,
    Backspace,
}

/// A command to the editor itself.
#[derive(Debug, Clone, Copy, PartialEq, Eq, Structural)]
pub enum System {
    Save,
    Resize(Size),
    Quit,
}

/// Any command the editor takes.
#[derive(Debug, Clone, Copy, PartialEq, Eq, Structural)]
pub enum Command {
    Move(Move),
    Edit(Edit),
    System(System),
}

/// No modifier key held.
pub const MOD_NONE: u8 = 0;

/// The Shift key held.
pub const MOD_SHIFT: u8 = 1;

/// The Control key held.
pub const MOD_CONTROL: u8 = 2;

/// The Alt key held.
pub const MOD_ALT: u8 = 4;

/// A key of the keyboard; `Other` stands for every key the editor does not use.
#[derive(Debug, Clone, Copy, PartialEq, Eq, Structural)]
pub enum KeyCode {
    Char(char),
    Up,
    Down,
    Left,
    Right,
    PageUp,
    PageDown,
    Home,
    End,
    Tab,
    Enter,
    Delete,
    Backspace,
    Other,
}

/// Whether a key went down, repeats, or came up.
#[derive(Debug, Clone, Copy, PartialEq, Eq, Structural)]
pub enum KeyEventKind {
    Press,
    Repeat,
    Release,
}

/// A key event: the key, the modifier keys held (a set of `MOD_` bits) and its kind.
#[derive(Debug, Clone, Copy, PartialEq, Eq, Structural)]
pub struct KeyEvent {
    pub code: KeyCode,
    pub modifiers: u8,
    pub kind: KeyEventKind,
}

/// An event of the terminal: a key, a new size (columns, rows), or something else.
#[derive(Debug, Clone, Copy, PartialEq, Eq, Structural)]
pub enum Event {
    Key(KeyEvent),
    Resize(u16, u16),
    Other,
}

/// Why an event is not a command.
#[derive(Debug, Clone, Copy, PartialEq, Eq, Structural)]
pub enum CommandError {
    /// The key does not go with the modifier keys held.
    UnsupportedModifier(KeyCode, u8),
    /// The key is not bound.
    UnsupportedCode(KeyCode),
    /// Control and this key are not bound.
    UnsupportedControlCombination(KeyCode),
    /// The event is neither a key nor a resize.
    UnsupportedEvent,
}

/// The movement a key gives: arrows, Page Up and Down, Home and End, with no modifier.
pub open spec fn move_for(e: KeyEvent) -> Result<Move, CommandError> {
    if e.modifiers != MOD_NONE {
        Err(CommandError::UnsupportedModifier(e.code, e.modifiers))
    } else {
        match e.code {
            KeyCode::Up => Ok(Move::Up),
            KeyCode::Down => Ok(Move::Down),
            KeyCode::Left => Ok(Move::Left),
            KeyCode::Right => Ok(Move::Right),
            KeyCode::PageDown => Ok(Move::PageDown),
            KeyCode::PageUp => Ok(Move::PageUp),
            KeyCode::Home => Ok(Move::StartOfLine),
            KeyCode::End => Ok(Move::EndOfLine),
            _ => Err(CommandError::UnsupportedCode(e.code)),
        }
    }
}

/// The edit a key gives: a character (alone or with Shift) is typed; with no modifier,
/// Tab types a tab, Enter breaks the line, Delete and Backspace delete.
pub open spec fn edit_for(e: KeyEvent) -> Result<Edit, CommandError> {
    if e.code is Char && (e.modifiers == MOD_NONE || e.modifiers == MOD_SHIFT) {
        Ok(Edit::Insert(e.code->Char_0))
    } else if e.modifiers != MOD_NONE {
        Err(CommandError::UnsupportedModifier(e.code, e.modifiers))
    } else {
        match e.code {
            KeyCode::Tab => Ok(Edit::Insert('\t')),
            KeyCode::Enter => Ok(Edit::NewLine),
            KeyCode::Delete => Ok(Edit::Delete),
            KeyCode::Backspace => Ok(Edit::Backspace),
            _ => Err(CommandError::UnsupportedModifier(e.code, e.modifiers)),
        }
    }
}

/// The system command a key gives: Control-Q quits, Control-S saves.
pub open spec fn system_for(e: KeyEvent) -> Result<System, CommandError> {
    if e.modifiers != MOD_CONTROL {
        Err(CommandError::UnsupportedModifier(e.code, e.modifiers))
    } else if e.code == KeyCode::Char('q') {
        Ok(System::Quit)
    } else if e.code == KeyCode::Char('s') {
        Ok(System::Save)
    } else {
        Err(CommandError::UnsupportedControlCombination(e.code))
    }
}

/// The command an event gives: for a key, its edit, else its movement, else its system
/// command (the error is the last one's); for a resize, the new size.
pub open spec fn command_for(event: Event) -> Result<Command, CommandError> {
    match event {
        Event::Key(ke) => match edit_for(ke) {
            Ok(e) => Ok(Command::Edit(e)),
            Err(_) => match move_for(ke) {
                Ok(m) => Ok(Command::Move(m)),
                Err(_) => match system_for(ke) {
                    Ok(s) => Ok(Command::System(s)),
                    Err(err) => Err(err),
                },
            },
        },
        Event::Resize(width, height) => Ok(
            Command::System(System::Resize(Size { height: height as usize, width: width as usize })),
        ),
        Event::Other => Err(CommandError::UnsupportedEvent),
    }
}

fn handle_vi_move(direction: char) -> (r: Move)
    requires
        direction == 'h' || direction == 'j' || direction == 'k' || direction == 'l',
    ensures
        r == (if direction == 'k' {
            Move::Up
        } else if direction == 'j' {
            Move::Down
        } else if direction == 'h' {
            Move::Left
        } else {
            Move::Right
        }),
{
    match direction {
        'k' => Move::Up,
        'j' => Move::Down,
        'h' => Move::Left,
        _ => Move::Right,
    }
}

impl Move {
    /// The movement that `event` gives.
    pub fn try_from(event: &KeyEvent) -> (r: Result<Self, CommandError>)
        ensures
            r == move_for(*event),
    {
        let code = event.code;
        let modifiers = event.modifiers;
        if modifiers != MOD_NONE {
            return Err(CommandError::UnsupportedModifier(code, modifiers));
        }
        match code {
            KeyCode::Up => Ok(Self::Up),
            KeyCode::Down => Ok(Self::Down),
            KeyCode::Left => Ok(Self::Left),
            KeyCode::Right => Ok(Self::Right),
            KeyCode::PageDown => Ok(Self::PageDown),
            KeyCode::PageUp => Ok(Self::PageUp),
            KeyCode::Home => Ok(Self::StartOfLine),
            KeyCode::End => Ok(Self::EndOfLine),
            KeyCode::Char(ch) => {
                if (ch == 'h' || ch == 'j' || ch == 'k' || ch == 'l') && modifiers == MOD_CONTROL {
                    Ok(handle_vi_move(ch))
                } else {
                    Err(CommandError::UnsupportedCode(code))
                }
            },
            _ => Err(CommandError::UnsupportedCode(code)),
        }
    }
}

impl Edit {
    /// The edit that `event` gives.
    pub fn try_from(event: &KeyEvent) -> (r: Result<Self, CommandError>)
        ensures
            r == edit_for(*event),
    {
        let code = event.code;
        let modifiers = event.modifiers;
        if let KeyCode::Char(ch) = code {
            if modifiers == MOD_NONE || modifiers == MOD_SHIFT {
                return Ok(Self::Insert(ch));
            }
        }
        if modifiers != MOD_NONE {
            return Err(CommandError::UnsupportedModifier(code, modifiers));
        }
        match code {
            KeyCode::Tab => Ok(Self::Insert('\t')),
            KeyCode::Enter => Ok(Self::NewLine),
            KeyCode::Delete => Ok(Self::Delete),
            KeyCode::Backspace => Ok(Self::Backspace),
            _ => Err(CommandError::UnsupportedModifier(code, modifiers)),
        }
    }
}

impl System {
    /// The system command that `event` gives.
    pub fn try_from(event: &KeyEvent) -> (r: Result<Self, CommandError>)
        ensures
            r == system_for(*event),
    {
        let code = event.code;
        let modifiers = event.modifiers;
        if modifiers != MOD_CONTROL {
            return Err(CommandError::UnsupportedModifier(code, modifiers));
        }
        match code {
            KeyCode::Char('q') => Ok(Self::Quit),
            KeyCode::Char('s') => Ok(Self::Save),
            _ => Err(CommandError::UnsupportedControlCombination(code)),
        }
    }
}

fn sys_resize_from(width: u16, height: u16) -> (r: Command)
    ensures
        r == Command::System(System::Resize(Size { height: height as usize, width: width as usize })),
{
    Command::System(System::Resize(Size { height: height as usize, width: width as usize }))
}

impl Command {
    /// The command that `event` gives.
    pub fn try_from(event: &Event) -> (r: Result<Self, CommandError>)
        ensures
            r == command_for(*event),
    {
        match event {
            Event::Key(ke) => match Edit::try_from(ke) {
                Ok(e) => Ok(Command::Edit(e)),
                Err(_) => match Move::try_from(ke) {
                    Ok(m) => Ok(Command::Move(m)),
                    Err(_) => match System::try_from(ke) {
                        Ok(s) => Ok(Command::System(s)),
                        Err(err) => Err(err),
                    },
                },
            },
            Event::Resize(width, height) => Ok(sys_resize_from(*width, *height)),
            Event::Other => Err(CommandError::UnsupportedEvent),
        }
    }
}

/// Every character key, alone or with Shift held, types its character, whatever the
/// character is.
pub proof fn lemma_character_keys_type(c: char, modifiers: u8, kind: KeyEventKind)
    requires
        modifiers == MOD_NONE || modifiers == MOD_SHIFT,
    ensures
        edit_for(KeyEvent { code: KeyCode::Char(c), modifiers, kind }) == Ok::<Edit, CommandError>(
            Edit::Insert(c),
        ),
        command_for(Event::Key(KeyEvent { code: KeyCode::Char(c), modifiers, kind }))
            == Ok::<Command, CommandError>(Command::Edit(Edit::Insert(c))),
{
}

/// Control-Q asks to quit and Control-S to save; the arrows, Page Up and Down, Home and End
/// alone move the caret; Enter, Tab, Delete and Backspace alone edit.
pub proof fn lemma_command_keys(kind: KeyEventKind)
    ensures
        command_for(Event::Key(KeyEvent { code: KeyCode::Char('q'), modifiers: MOD_CONTROL, kind }))
            == Ok::<Command, CommandError>(Command::System(System::Quit)),
        command_for(Event::Key(KeyEvent { code: KeyCode::Char('s'), modifiers: MOD_CONTROL, kind }))
            == Ok::<Command, CommandError>(Command::System(System::Save)),
        command_for(Event::Key(KeyEvent { code: KeyCode::Up, modifiers: MOD_NONE, kind }))
            == Ok::<Command, CommandError>(Command::Move(Move::Up)),
        command_for(Event::Key(KeyEvent { code: KeyCode::Down, modifiers: MOD_NONE, kind }))
            == Ok::<Command, CommandError>(Command::Move(Move::Down)),
        command_for(Event::Key(KeyEvent { code: KeyCode::Left, modifiers: MOD_NONE, kind }))
            == Ok::<Command, CommandError>(Command::Move(Move::Left)),
        command_for(Event::Key(KeyEvent { code: KeyCode::Right, modifiers: MOD_NONE, kind }))
            == Ok::<Command, CommandError>(Command::Move(Move::Right)),
        command_for(Event::Key(KeyEvent { code: KeyCode::PageUp, modifiers: MOD_NONE, kind }))
            == Ok::<Command, CommandError>(Command::Move(Move::PageUp)),
        command_for(Event::Key(KeyEvent { code: KeyCode::PageDown, modifiers: MOD_NONE, kind }))
            == Ok::<Command, CommandError>(Command::Move(Move::PageDown)),
        command_for(Event::Key(KeyEvent { code: KeyCode::Home, modifiers: MOD_NONE, kind }))
            == Ok::<Command, CommandError>(Command::Move(Move::StartOfLine)),
        command_for(Event::Key(KeyEvent { code: KeyCode::End, modifiers: MOD_NONE, kind }))
            == Ok::<Command, CommandError>(Command::Move(Move::EndOfLine)),
        command_for(Event::Key(KeyEvent { code: KeyCode::Enter, modifiers: MOD_NONE, kind }))
            == Ok::<Command, CommandError>(Command::Edit(Edit::NewLine)),
        command_for(Event::Key(KeyEvent { code: KeyCode::Tab, modifiers: MOD_NONE, kind }))
            == Ok::<Command, CommandError>(Command::Edit(Edit::Insert('\t'))),
        command_for(Event::Key(KeyEvent { code: KeyCode::Delete, modifiers: MOD_NONE, kind }))
            == Ok::<Command, CommandError>(Command::Edit(Edit::Delete)),
        command_for(Event::Key(KeyEvent { code: KeyCode::Backspace, modifiers: MOD_NONE, kind }))
            == Ok::<Command, CommandError>(Command::Edit(Edit::Backspace)),
{
}

/// A resize of `width` columns and `height` rows gives that size.
pub proof fn lemma_resize_event(width: u16, height: u16)
    ensures
        command_for(Event::Resize(width, height)) == Ok::<Command, CommandError>(
            Command::System(System::Resize(Size { height: height as usize, width: width as usize })),
        ),
{
}

} // verus!
