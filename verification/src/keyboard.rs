//! The hotkeys and what each of them asks for.

use vstd::prelude::*;
use crate::state::AppState;

verus! {

/// A recognised key press: one of the function keys F6 to F12.
#[derive(Clone, Copy, Debug, PartialEq, Eq, Structural)]
pub enum KeyboardEvent {
    F6,
    F7,
    F8,
    F9,
    F10,
    F11,
    F12,
}

/// What a key press asks the main loop to do.
#[derive(Clone, Debug)]
pub enum HotkeyAction {
    /// Generate a marquee for the selected game and show it.
    Generate { system_name: String, game_name: String },
    /// The generate key was pressed while no game was selected.
    NothingSelected,
    /// Leave the main loop.
    Exit,
    /// A key kept for a visual adjustment that changes nothing yet.
    Placeholder,
}

impl KeyboardEvent {
    /// The key for the function key of the given number, where it is one of
    /// the recognised keys.
    pub fn from_function_key(number: u8) -> (key: Option<KeyboardEvent>)
        ensures
            key is Some == (6 <= number <= 12),
            key == match number {
                6 => Some(KeyboardEvent::F6),
                7 => Some(KeyboardEvent::F7),
                8 => Some(KeyboardEvent::F8),
                9 => Some(KeyboardEvent::F9),
                10 => Some(KeyboardEvent::F10),
                11 => Some(KeyboardEvent::F11),
                12 => Some(KeyboardEvent::F12),
                _ => None,
            },
    {
        match number {
            6 => Some(KeyboardEvent::F6),
            7 => Some(KeyboardEvent::F7),
            8 => Some(KeyboardEvent::F8),
            9 => Some(KeyboardEvent::F9),
            10 => Some(KeyboardEvent::F10),
            11 => Some(KeyboardEvent::F11),
            12 => Some(KeyboardEvent::F12),
            _ => None,
        }
    }
}

/// What a key press asks for, given the current selection: F7 generates a
/// marquee for the selected game, if there is one; F12 exits; the other keys
/// change nothing.  The state is only read.
pub fn dispatch(key: KeyboardEvent, state: &AppState) -> (action: HotkeyAction)
    ensures
        match action {
            HotkeyAction::Generate { system_name, game_name } => key == KeyboardEvent::F7
                && state.selection() == Some((system_name@, game_name@)),
            HotkeyAction::NothingSelected => key == KeyboardEvent::F7 && state.current_game
                is None,
            HotkeyAction::Exit => key == KeyboardEvent::F12,
            HotkeyAction::Placeholder => key != KeyboardEvent::F7 && key != KeyboardEvent::F12,
        },
{
    match key {
        KeyboardEvent::F7 => match &state.current_game {
            Some(pair) => HotkeyAction::Generate {
                system_name: pair.0.clone(),
                game_name: pair.1.clone(),
            },
            None => HotkeyAction::NothingSelected,
        },
        KeyboardEvent::F12 => HotkeyAction::Exit,
        _ => HotkeyAction::Placeholder,
    }
}

} // verus!
