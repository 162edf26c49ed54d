//! Key presses as the front end reports them, and the events that the game
//! reads in them.

use crate::app::ScreenStates;
use vstd::prelude::*;

verus! {

/// The key of a key press.
#[derive(Clone, Copy, Debug, PartialEq, Eq, Structural)]
pub enum KeyCode {
    /// A key that types a character.
    Char(char),
    /// The key that deletes to the left.
    Backspace,
    /// The key that confirms a line.
    Enter,
    /// The escape key.
    Esc,
    /// Any other key.
    Other,
}

/// One key press: the key, and whether Control was held with it.
#[derive(Clone, Copy, Debug, PartialEq, Eq, Structural)]
pub struct KeyPress {
    /// The key that was pressed.
    pub code: KeyCode,
    /// Whether Control was held down.
    pub ctrl: bool,
}

/// What a key press means to the game.
#[derive(Clone, Copy, Debug, PartialEq, Eq, Structural)]
pub enum Event {
    /// A lowercase letter to add to the guess.
    Letter(char),
    /// Take the last letter of the guess back.
    Backspace,
    /// Submit the guess.
    Submit,
    /// Play another round.
    Confirm,
    /// Play no other round.
    Decline,
    /// Leave the game.
    Quit,
    /// Nothing that the game reacts to.
    Other,
}

/// Whether `c` is one of the letters `a` to `z`.
pub open spec fn is_lower(c: char) -> bool {
    'a' <= c && c <= 'z'
}

/// The event that a key press stands for on the given screen.
///
/// Escape and Control-C quit on every screen. While playing, the letters
/// `a` to `z`, Backspace and Enter edit and submit the guess. Once the round
/// is over, `y` and `n`, in either case, answer whether to play again.
pub open spec fn event_of(screen: ScreenStates, key: KeyPress) -> Event {
    if key.code == KeyCode::Esc || (key.code == KeyCode::Char('c') && key.ctrl) {
        Event::Quit
    } else {
        match screen {
            ScreenStates::Playing => match key.code {
                KeyCode::Char(c) => if is_lower(c) {
                    Event::Letter(c)
                } else {
                    Event::Other
                },
                KeyCode::Backspace => Event::Backspace,
                KeyCode::Enter => Event::Submit,
                _ => Event::Other,
            },
            ScreenStates::GameEnd(_) => match key.code {
                KeyCode::Char(c) => if c == 'y' || c == 'Y' {
                    Event::Confirm
                } else if c == 'n' || c == 'N' {
                    Event::Decline
                } else {
                    Event::Other
                },
                _ => Event::Other,
            },
        }
    }
}

/// Reads a key press as an event of the game, on the given screen.
pub fn classify(screen: ScreenStates, key: KeyPress) -> (event: Event)
    ensures
        event == event_of(screen, key),
{
    match key.code {
        KeyCode::Esc => {
            return Event::Quit;
        },
        KeyCode::Char(c) => {
            if c == 'c' && key.ctrl {
                return Event::Quit;
            }
        },
        _ => {},
    }
    match screen {
        ScreenStates::Playing => match key.code {
            KeyCode::Char(c) => {
                if 'a' <= c && c <= 'z' {
                    Event::Letter(c)
                } else {
                    Event::Other
                }
            },
            KeyCode::Backspace => Event::Backspace,
            KeyCode::Enter => Event::Submit,
            _ => Event::Other,
        },
        ScreenStates::GameEnd(_) => match key.code {
            KeyCode::Char(c) => {
                if c == 'y' || c == 'Y' {
                    Event::Confirm
                } else if c == 'n' || c == 'N' {
                    Event::Decline
                } else {
                    Event::Other
                }
            },
            _ => Event::Other,
        },
    }
}

} // verus!
