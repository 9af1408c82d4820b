use vstd::prelude::*;

use crate::command::{
    CommandError, Event, KeyCode, KeyEvent, KeyEventKind, MOD_ALT, MOD_CONTROL, MOD_NONE, MOD_SHIFT,
};
use crate::terminal::Size;

verus! {

/// A direction the caret moves in.
#[derive(Debug, Clone, Copy, PartialEq, Eq, Structural)]
pub enum Direction {
    PageUp,
    PageDown,
    Home,
    End,
    Up,
    Left,
    Right,
    Down,
}

/// A command of the editor, as keys and resizes give it.
#[derive(Debug, Clone, Copy, PartialEq, Eq, Structural)]
pub enum EditorCommand {
    Move(Direction),
    Resize(Size),
    Quit,
    Insert(char),
    Del,
    Backspace,
    Tab,
    Enter,
    Save,
}

/// The direction that a vi key (`h`, `j`, `k`, `l`) stands for.
pub open spec fn vi_direction(c: char) -> Direction {
    if c == 'k' {
        Direction::Up
    } else if c == 'j' {
        Direction::Down
    } else if c == 'h' {
        Direction::Left
    } else {
        Direction::Right
    }
}

/// The command an event gives, key bindings tried in order: Control-Q quits; a character
/// alone or with Shift is typed; Backspace, Delete, Tab and Enter with any modifiers; Alt with
/// `h`, `j`, `k` or `l` moves as in vi; Control-S saves; arrows, Page Up and Down, Home and End
/// with any modifiers move; a resize gives the new size.
pub open spec fn editor_command_for(event: Event) -> Result<EditorCommand, CommandError> {
    match event {
        Event::Key(ke) => {
            let m = ke.modifiers;
            match ke.code {
                KeyCode::Char(c) => {
                    if c == 'q' && m == MOD_CONTROL {
                        Ok(EditorCommand::Quit)
                    } else if m == MOD_SHIFT || m == MOD_NONE {
                        Ok(EditorCommand::Insert(c))
                    } else if (c == 'h' || c == 'j' || c == 'k' || c == 'l') && m == MOD_ALT {
                        Ok(EditorCommand::Move(vi_direction(c)))
                    } else if c == 's' && m == MOD_CONTROL {
                        Ok(EditorCommand::Save)
                    } else {
                        Err(CommandError::UnsupportedCode(ke.code))
                    }
                },
                KeyCode::Backspace => Ok(EditorCommand::Backspace),
                KeyCode::Delete => Ok(EditorCommand::Del),
                KeyCode::Tab => Ok(EditorCommand::Tab),
                KeyCode::Enter => Ok(EditorCommand::Enter),
                KeyCode::Up => Ok(EditorCommand::Move(Direction::Up)),
                KeyCode::Down => Ok(EditorCommand::Move(Direction::Down)),
                KeyCode::Left => Ok(EditorCommand::Move(Direction::Left)),
                KeyCode::Right => Ok(EditorCommand::Move(Direction::Right)),
                KeyCode::PageDown => Ok(EditorCommand::Move(Direction::PageDown)),
                KeyCode::PageUp => Ok(EditorCommand::Move(Direction::PageUp)),
                KeyCode::Home => Ok(EditorCommand::Move(Direction::Home)),
                KeyCode::End => Ok(EditorCommand::Move(Direction::End)),
                KeyCode::Other => Err(CommandError::UnsupportedCode(ke.code)),
            }
        },
        Event::Resize(width, height) => Ok(
            EditorCommand::Resize(Size { height: height as usize, width: width as usize }),
        ),
        Event::Other => Err(CommandError::UnsupportedEvent),
    }
}

fn handle_vi_move(direction: char) -> (r: Direction)
    requires
        direction == 'h' || direction == 'j' || direction == 'k' || direction == 'l',
    ensures
        r == vi_direction(direction),
{
    match direction {
        'k' => Direction::Up,
        'j' => Direction::Down,
        'h' => Direction::Left,
        _ => Direction::Right,
    }
}

impl EditorCommand {
    /// The command that `event` gives.
    pub fn try_from(event: &Event) -> (r: Result<Self, CommandError>)
        ensures
            r == editor_command_for(*event),
    {
        match event {
            Event::Key(ke) => {
                let code = ke.code;
                let modifiers = ke.modifiers;
                match code {
                    KeyCode::Char(c) => {
                        if c == 'q' && modifiers == MOD_CONTROL {
                            Ok(Self::Quit)
                        } else if modifiers == MOD_SHIFT || modifiers == MOD_NONE {
                            Ok(Self::Insert(c))
                        } else if (c == 'j' || c == 'k' || c == 'l' || c == 'h') && modifiers
                            == MOD_ALT {
                            Ok(Self::Move(handle_vi_move(c)))
                        } else if c == 's' && modifiers == MOD_CONTROL {
                            Ok(Self::Save)
                        } else {
                            Err(CommandError::UnsupportedCode(code))
                        }
                    },
                    KeyCode::Backspace => Ok(Self::Backspace),
                    KeyCode::Delete => Ok(Self::Del),
                    KeyCode::Tab => Ok(Self::Tab),
                    KeyCode::Enter => Ok(Self::Enter),
                    KeyCode::Up => Ok(Self::Move(Direction::Up)),
                    KeyCode::Down => Ok(Self::Move(Direction::Down)),
                    KeyCode::Left => Ok(Self::Move(Direction::Left)),
                    KeyCode::Right => Ok(Self::Move(Direction::Right)),
                    KeyCode::PageDown => Ok(Self::Move(Direction::PageDown)),
                    KeyCode::PageUp => Ok(Self::Move(Direction::PageUp)),
                    KeyCode::Home => Ok(Self::Move(Direction::Home)),
                    KeyCode::End => Ok(Self::Move(Direction::End)),
                    KeyCode::Other => Err(CommandError::UnsupportedCode(code)),
                }
            },
            Event::Resize(width_u16, height_u16) => {
                let height = *height_u16 as usize;
                let width = *width_u16 as usize;
                Ok(Self::Resize(Size { height, width }))
            },
            Event::Other => Err(CommandError::UnsupportedEvent),
        }
    }
}

/// Every character key, alone or with Shift held, types its character, whatever the
/// character is.
pub proof fn lemma_character_keys_insert(c: char, modifiers: u8, kind: KeyEventKind)
    requires
        modifiers == MOD_NONE || modifiers == MOD_SHIFT,
    ensures
        editor_command_for(Event::Key(KeyEvent { code: KeyCode::Char(c), modifiers, kind }))
            == Ok::<EditorCommand, CommandError>(EditorCommand::Insert(c)),
{
}

} // verus!
