//! What a key press means on the game's main screen.
use crate::input::Key;
use vstd::prelude::*;

verus! {

#[derive(Debug, Clone, Copy, PartialEq, Eq, Structural)]
pub enum GameEvent {
    Quit,
    ToggleMusic,
    PlayMusic,
    Continue,
    Typing(Key),
    Other(Key),
}

/// The event a key press raises on the main screen.
pub open spec fn event_for_key(key: Key) -> GameEvent {
    match key {
        Key::Char(c) => if c == 'q' {
            GameEvent::Quit
        } else if c == 't' {
            GameEvent::ToggleMusic
        } else if c == 'r' {
            GameEvent::PlayMusic
        } else {
            GameEvent::Other(key)
        },
        Key::Enter => GameEvent::Continue,
        _ => GameEvent::Other(key),
    }
}

impl GameEvent {
    /// `q` quits, `t` toggles the music, `r` plays it, Enter continues;
    /// any other key is left unhandled.
    pub fn from_key(key: Key) -> (e: GameEvent)
        ensures
            e == event_for_key(key),
    {
        match key {
            Key::Char('q') => GameEvent::Quit,
            Key::Char('t') => GameEvent::ToggleMusic,
            Key::Char('r') => GameEvent::PlayMusic,
            Key::Enter => GameEvent::Continue,
            _ => GameEvent::Other(key),
        }
    }

    /// The line the main screen prints for the event; `None` for a key
    /// it does not handle, which it reports by the key itself.
    pub fn message(&self) -> (m: Option<&'static str>)
        ensures
            *self == GameEvent::Quit ==> (m matches Some(s) && s@ == "Quitting game!!"@),
            *self == GameEvent::ToggleMusic ==> (m matches Some(s) && s@ == "Toggling music..."@),
            *self == GameEvent::PlayMusic ==> (m matches Some(s) && s@ == "Playing music..."@),
            *self == GameEvent::Continue ==> (m matches Some(s) && s@ == "Continue"@),
            (self is Typing || self is Other) ==> m is None,
    {
        match self {
            GameEvent::Quit => Some("Quitting game!!"),
            GameEvent::ToggleMusic => Some("Toggling music..."),
            GameEvent::PlayMusic => Some("Playing music..."),
            GameEvent::Continue => Some("Continue"),
            _ => None,
        }
    }

    /// Whether the event ends the main screen's loop: only quitting does.
    pub fn ends_loop(&self) -> (b: bool)
        ensures
            b == (*self == GameEvent::Quit),
    {
        match self {
            GameEvent::Quit => true,
            _ => false,
        }
    }
}

/// Each event comes from exactly its key: Enter alone continues, `q` alone
/// quits, `t` alone toggles the music, `r` alone plays it, and every other
/// key, arrows and Backspace included, is passed on unhandled as itself.
pub proof fn lemma_events_come_from_their_keys(key: Key)
    ensures
        (event_for_key(key) == GameEvent::Continue) <==> key == Key::Enter,
        (event_for_key(key) == GameEvent::Quit) <==> key == Key::Char('q'),
        (event_for_key(key) == GameEvent::ToggleMusic) <==> key == Key::Char('t'),
        (event_for_key(key) == GameEvent::PlayMusic) <==> key == Key::Char('r'),
        (key != Key::Enter && key != Key::Char('q') && key != Key::Char('t') && key != Key::Char(
            'r',
        )) ==> event_for_key(key) == GameEvent::Other(key),
        !(event_for_key(key) is Typing),
{
}

} // verus!
