use texteditor::command::{
    Command, CommandError, Edit, Event, KeyCode, KeyEvent, KeyEventKind, Move, System, MOD_ALT,
    MOD_CONTROL, MOD_NONE, MOD_SHIFT,
};
use texteditor::editorcommand::{Direction, EditorCommand};
use texteditor::Size;

fn key(code: KeyCode, modifiers: u8) -> KeyEvent {
    KeyEvent { code, modifiers, kind: KeyEventKind::Press }
}

#[test]
fn move_from_plain_navigation_keys() {
    assert_eq!(Move::try_from(&key(KeyCode::Up, MOD_NONE)), Ok(Move::Up));
    assert_eq!(Move::try_from(&key(KeyCode::Down, MOD_NONE)), Ok(Move::Down));
    assert_eq!(Move::try_from(&key(KeyCode::Left, MOD_NONE)), Ok(Move::Left));
    assert_eq!(Move::try_from(&key(KeyCode::Right, MOD_NONE)), Ok(Move::Right));
    assert_eq!(Move::try_from(&key(KeyCode::PageUp, MOD_NONE)), Ok(Move::PageUp));
    assert_eq!(Move::try_from(&key(KeyCode::PageDown, MOD_NONE)), Ok(Move::PageDown));
    assert_eq!(Move::try_from(&key(KeyCode::Home, MOD_NONE)), Ok(Move::StartOfLine));
    assert_eq!(Move::try_from(&key(KeyCode::End, MOD_NONE)), Ok(Move::EndOfLine));
}

#[test]
fn move_refuses_modifiers_and_other_keys() {
    assert_eq!(
        Move::try_from(&key(KeyCode::Up, MOD_SHIFT)),
        Err(CommandError::UnsupportedModifier(KeyCode::Up, MOD_SHIFT))
    );
    assert_eq!(
        Move::try_from(&key(KeyCode::Char('k'), MOD_CONTROL)),
        Err(CommandError::UnsupportedModifier(KeyCode::Char('k'), MOD_CONTROL))
    );
    assert_eq!(
        Move::try_from(&key(KeyCode::Char('k'), MOD_NONE)),
        Err(CommandError::UnsupportedCode(KeyCode::Char('k')))
    );
    assert_eq!(
        Move::try_from(&key(KeyCode::Enter, MOD_NONE)),
        Err(CommandError::UnsupportedCode(KeyCode::Enter))
    );
}

#[test]
fn edit_from_typing_keys() {
    assert_eq!(Edit::try_from(&key(KeyCode::Char('a'), MOD_NONE)), Ok(Edit::Insert('a')));
    assert_eq!(Edit::try_from(&key(KeyCode::Char('A'), MOD_SHIFT)), Ok(Edit::Insert('A')));
    assert_eq!(Edit::try_from(&key(KeyCode::Tab, MOD_NONE)), Ok(Edit::Insert('\t')));
    assert_eq!(Edit::try_from(&key(KeyCode::Enter, MOD_NONE)), Ok(Edit::NewLine));
    assert_eq!(Edit::try_from(&key(KeyCode::Delete, MOD_NONE)), Ok(Edit::Delete));
    assert_eq!(Edit::try_from(&key(KeyCode::Backspace, MOD_NONE)), Ok(Edit::Backspace));
}

#[test]
fn edit_refuses_modifiers_and_other_keys() {
    assert_eq!(
        Edit::try_from(&key(KeyCode::Char('s'), MOD_CONTROL)),
        Err(CommandError::UnsupportedModifier(KeyCode::Char('s'), MOD_CONTROL))
    );
    assert_eq!(
        Edit::try_from(&key(KeyCode::Enter, MOD_SHIFT)),
        Err(CommandError::UnsupportedModifier(KeyCode::Enter, MOD_SHIFT))
    );
    assert_eq!(
        Edit::try_from(&key(KeyCode::Up, MOD_NONE)),
        Err(CommandError::UnsupportedModifier(KeyCode::Up, MOD_NONE))
    );
}

#[test]
fn system_from_control_keys() {
    assert_eq!(System::try_from(&key(KeyCode::Char('q'), MOD_CONTROL)), Ok(System::Quit));
    assert_eq!(System::try_from(&key(KeyCode::Char('s'), MOD_CONTROL)), Ok(System::Save));
    assert_eq!(
        System::try_from(&key(KeyCode::Char('x'), MOD_CONTROL)),
        Err(CommandError::UnsupportedControlCombination(KeyCode::Char('x')))
    );
    assert_eq!(
        System::try_from(&key(KeyCode::Char('q'), MOD_NONE)),
        Err(CommandError::UnsupportedModifier(KeyCode::Char('q'), MOD_NONE))
    );
}

#[test]
fn command_tries_edit_then_move_then_system() {
    let ev = |code, m| Event::Key(key(code, m));
    assert_eq!(Command::try_from(&ev(KeyCode::Char('q'), MOD_NONE)), Ok(Command::Edit(Edit::Insert('q'))));
    assert_eq!(Command::try_from(&ev(KeyCode::Left, MOD_NONE)), Ok(Command::Move(Move::Left)));
    assert_eq!(
        Command::try_from(&ev(KeyCode::Char('q'), MOD_CONTROL)),
        Ok(Command::System(System::Quit))
    );
    assert_eq!(
        Command::try_from(&ev(KeyCode::Other, MOD_NONE)),
        Err(CommandError::UnsupportedModifier(KeyCode::Other, MOD_NONE))
    );
    assert_eq!(
        Command::try_from(&Event::Resize(80, 24)),
        Ok(Command::System(System::Resize(Size { height: 24, width: 80 })))
    );
    assert_eq!(Command::try_from(&Event::Other), Err(CommandError::UnsupportedEvent));
}

#[test]
fn editor_command_bindings() {
    let ev = |code, m| Event::Key(key(code, m));
    assert_eq!(EditorCommand::try_from(&ev(KeyCode::Char('q'), MOD_CONTROL)), Ok(EditorCommand::Quit));
    assert_eq!(EditorCommand::try_from(&ev(KeyCode::Char('s'), MOD_CONTROL)), Ok(EditorCommand::Save));
    assert_eq!(EditorCommand::try_from(&ev(KeyCode::Char('z'), MOD_SHIFT)), Ok(EditorCommand::Insert('z')));
    assert_eq!(
        EditorCommand::try_from(&ev(KeyCode::Char('j'), MOD_ALT)),
        Ok(EditorCommand::Move(Direction::Down))
    );
    assert_eq!(
        EditorCommand::try_from(&ev(KeyCode::Char('k'), MOD_ALT)),
        Ok(EditorCommand::Move(Direction::Up))
    );
    assert_eq!(
        EditorCommand::try_from(&ev(KeyCode::Char('h'), MOD_ALT)),
        Ok(EditorCommand::Move(Direction::Left))
    );
    assert_eq!(
        EditorCommand::try_from(&ev(KeyCode::Char('l'), MOD_ALT)),
        Ok(EditorCommand::Move(Direction::Right))
    );
    assert_eq!(EditorCommand::try_from(&ev(KeyCode::Backspace, MOD_CONTROL)), Ok(EditorCommand::Backspace));
    assert_eq!(EditorCommand::try_from(&ev(KeyCode::Delete, MOD_NONE)), Ok(EditorCommand::Del));
    assert_eq!(EditorCommand::try_from(&ev(KeyCode::Tab, MOD_NONE)), Ok(EditorCommand::Tab));
    assert_eq!(EditorCommand::try_from(&ev(KeyCode::Enter, MOD_NONE)), Ok(EditorCommand::Enter));
    assert_eq!(
        EditorCommand::try_from(&ev(KeyCode::Home, MOD_SHIFT)),
        Ok(EditorCommand::Move(Direction::Home))
    );
    assert_eq!(
        EditorCommand::try_from(&ev(KeyCode::PageDown, MOD_NONE)),
        Ok(EditorCommand::Move(Direction::PageDown))
    );
    assert_eq!(
        EditorCommand::try_from(&ev(KeyCode::Char('x'), MOD_ALT)),
        Err(CommandError::UnsupportedCode(KeyCode::Char('x')))
    );
    assert_eq!(
        EditorCommand::try_from(&ev(KeyCode::Other, MOD_NONE)),
        Err(CommandError::UnsupportedCode(KeyCode::Other))
    );
    assert_eq!(
        EditorCommand::try_from(&Event::Resize(100, 30)),
        Ok(EditorCommand::Resize(Size { height: 30, width: 100 }))
    );
    assert_eq!(EditorCommand::try_from(&Event::Other), Err(CommandError::UnsupportedEvent));
}
