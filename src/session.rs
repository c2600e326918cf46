//! Choices made while a user types or a text is read out: which sound a key
//! makes, how long a letter may ring, and how long to pause after each
//! character.

use vstd::prelude::*;
use crate::sprite::{is_ascii_alphabetic, is_ascii_letter, Millis};

verus! {

/// Keystrokes closer together than this count as fast typing (milliseconds).
pub const FAST_TYPING_MS: u64 = 100;

/// Length a letter is cut to during fast typing (milliseconds).
pub const FAST_LETTER_MS: u64 = 50;

/// Pause after a spoken letter when reading text (milliseconds).
pub const LETTER_PAUSE_MS: u64 = 50;

/// Pause after a space when reading text (milliseconds).
pub const SPACE_PAUSE_MS: u64 = 100;

/// Pause after a line break when reading text (milliseconds).
pub const LINE_PAUSE_MS: u64 = 200;

/// Pause after the whole text, so its last clip can ring out (milliseconds).
pub const FINAL_PAUSE_MS: u64 = 300;

/// A key the user pressed.
#[derive(Clone, Copy, Debug, PartialEq, Eq, Structural)]
pub enum Key {
    /// A character key; `control` is whether Ctrl was held.
    Char { c: char, control: bool },
    Enter,
    Backspace,
    Tab,
    Esc,
    Other,
}

/// What a key press asks for.
#[derive(Clone, Copy, Debug, PartialEq, Eq)]
pub enum KeyAction {
    /// Leave the session.
    Quit,
    /// Play a letter, cut to the given length if any.
    Letter { c: char, max_duration: Option<Millis> },
    /// Play the named effect.
    Effect(&'static str),
    /// No sound.
    Silent,
}

/// Pause after `c` when reading text aloud.
pub open spec fn pause_for(c: char) -> int {
    if is_ascii_letter(c) {
        LETTER_PAUSE_MS as int
    } else if c == ' ' {
        SPACE_PAUSE_MS as int
    } else if c == '\n' {
        LINE_PAUSE_MS as int
    } else {
        0
    }
}

/// Pause after `c` when reading text aloud: letters get a short settle,
/// spaces and line breaks longer gaps, anything else none.
pub fn pause_after(c: char) -> (r: u64)
    ensures
        r == pause_for(c),
{
    if is_ascii_alphabetic(c) {
        LETTER_PAUSE_MS
    } else if c == ' ' {
        SPACE_PAUSE_MS
    } else if c == '\n' {
        LINE_PAUSE_MS
    } else {
        0
    }
}

/// The cut for a letter typed `since_last` milliseconds after the previous
/// one: fast typing gets short clips, so that they do not pile up.
pub open spec fn letter_cut(since_last: int) -> Option<Millis> {
    if since_last < FAST_TYPING_MS {
        Some(Millis { ms: FAST_LETTER_MS })
    } else {
        None
    }
}

/// The state of a typing session: when the last letter was typed.
#[derive(Clone, Copy, Debug, PartialEq, Eq, Structural)]
pub struct TypingState {
    /// Time of the last letter, in milliseconds since the session began.
    pub last_letter_ms: u64,
}

impl TypingState {
    /// A session that begins now, as if a letter had just been typed.
    pub fn new() -> (r: TypingState)
        ensures
            r.last_letter_ms == 0,
    {
        TypingState { last_letter_ms: 0 }
    }

    /// Handles `key`, pressed `now_ms` milliseconds after the session
    /// began. Esc and Ctrl-C quit; a letter sounds, cut short when typed
    /// fast, and becomes the last letter; Enter, Backspace and Tab play
    /// their effects; anything else is silent.
    pub fn handle_key(&mut self, key: Key, now_ms: u64) -> (r: KeyAction)
        ensures
            match key {
                Key::Char { c, control } => if control && c == 'c' {
                    r == KeyAction::Quit && *final(self) == *old(self)
                } else if is_ascii_letter(c) {
                    let since = if now_ms >= old(self).last_letter_ms {
                        now_ms - old(self).last_letter_ms
                    } else {
                        0
                    };
                    r == (KeyAction::Letter { c, max_duration: letter_cut(since) })
                        && final(self).last_letter_ms == now_ms
                } else {
                    r == KeyAction::Silent && *final(self) == *old(self)
                },
                Key::Esc => r == KeyAction::Quit && *final(self) == *old(self),
                Key::Enter => (r matches KeyAction::Effect(n) && n@ == "enter"@) && *final(self)
                    == *old(self),
                Key::Backspace => (r matches KeyAction::Effect(n) && n@ == "backspace"@)
                    && *final(self) == *old(self),
                Key::Tab => (r matches KeyAction::Effect(n) && n@ == "tab"@) && *final(self)
                    == *old(self),
                Key::Other => r == KeyAction::Silent && *final(self) == *old(self),
            },
    {
        match key {
            Key::Char { c, control } => {
                if control && c == 'c' {
                    KeyAction::Quit
                } else if is_ascii_alphabetic(c) {
                    let since: u64 = if now_ms >= self.last_letter_ms {
                        now_ms - self.last_letter_ms
                    } else {
                        0
                    };
                    self.last_letter_ms = now_ms;
                    let max_duration = if since < FAST_TYPING_MS {
                        Some(Millis::from_millis(FAST_LETTER_MS))
                    } else {
                        None
                    };
                    KeyAction::Letter { c, max_duration }
                } else {
                    KeyAction::Silent
                }
            },
            Key::Esc => KeyAction::Quit,
            Key::Enter => KeyAction::Effect("enter"),
            Key::Backspace => KeyAction::Effect("backspace"),
            Key::Tab => KeyAction::Effect("tab"),
            Key::Other => KeyAction::Silent,
        }
    }
}

} // verus!
