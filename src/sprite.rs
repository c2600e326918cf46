//! Where each sound lives in its sprite sheet.
//!
//! A voice sheet holds one 200 ms slot per ASCII letter, in alphabetical
//! order from 0 ms, followed by three 600 ms slots for the special sounds.
//! The effects sheet holds 26 consecutive 600 ms slots.

use vstd::prelude::*;
use crate::text::str_eq;

verus! {

/// Length of one letter slot in a voice sheet, in milliseconds.
pub const LETTER_SLOT_MS: u64 = 200;

/// Length of one special-sound or effect slot, in milliseconds.
pub const LONG_SLOT_MS: u64 = 600;

/// A span of time, counted in whole milliseconds.
#[derive(Clone, Copy, Debug, PartialEq, Eq, Structural)]
pub struct Millis {
    pub ms: u64,
}

impl Millis {
    pub fn from_millis(ms: u64) -> (r: Millis)
        ensures
            r.ms == ms,
    {
        Millis { ms }
    }

    pub fn as_millis(&self) -> (r: u64)
        ensures
            r == self.ms,
    {
        self.ms
    }
}

/// `c` is one of `a..=z` or `A..=Z`.
pub open spec fn is_ascii_letter(c: char) -> bool {
    ('a' as u32 <= c as u32 <= 'z' as u32) || ('A' as u32 <= c as u32 <= 'Z' as u32)
}

/// Same as `char::to_ascii_lowercase`, as a code point.
pub open spec fn ascii_lower(c: char) -> int {
    if 'A' as u32 <= c as u32 <= 'Z' as u32 {
        c as u32 + 32
    } else {
        c as u32 as int
    }
}

/// Position of an ASCII letter in the alphabet, ignoring case (`a` and `A`
/// are 0): `lowercase(c) - 'a'`.
pub open spec fn alphabet_index(c: char) -> int {
    ascii_lower(c) - 'a' as u32
}

/// Same as `char::is_ascii_alphabetic`.
pub fn is_ascii_alphabetic(c: char) -> (r: bool)
    ensures
        r == is_ascii_letter(c),
{
    let u = c as u32;
    (97 <= u && u <= 122) || (65 <= u && u <= 90)
}

/// Start of a letter's slot in a voice sheet, ignoring case; `None` for
/// anything that is not an ASCII letter. Every slot lasts `LETTER_SLOT_MS`.
pub fn letter_to_sprite_time(c: char) -> (r: Option<Millis>)
    ensures
        is_ascii_letter(c) ==> r == Some(Millis { ms: (LETTER_SLOT_MS * alphabet_index(c)) as u64 }),
        !is_ascii_letter(c) ==> r is None,
{
    let u = c as u32;
    let index: u32 = if 97 <= u && u <= 122 {
        u - 97
    } else if 65 <= u && u <= 90 {
        u - 65
    } else {
        return None;
    };
    Some(Millis::from_millis(index as u64 * LETTER_SLOT_MS))
}

/// Slot of a named special sound in a voice sheet.
pub open spec fn special_start(name: Seq<char>) -> Option<int> {
    if name == "ok"@ {
        Some(5200)
    } else if name == "gwah"@ {
        Some(5800)
    } else if name == "deska"@ {
        Some(6400)
    } else {
        None
    }
}

/// Start of a special sound (`ok`, `gwah`, `deska`) in a voice sheet;
/// `None` for any other name. Every such slot lasts `LONG_SLOT_MS`.
pub fn special_to_sprite_time(name: &str) -> (r: Option<Millis>)
    ensures
        r matches Some(t) ==> special_start(name@) == Some(t.ms as int),
        r is None <==> special_start(name@) is None,
{
    if str_eq(name, "ok") {
        Some(Millis::from_millis(5200))
    } else if str_eq(name, "gwah") {
        Some(Millis::from_millis(5800))
    } else if str_eq(name, "deska") {
        Some(Millis::from_millis(6400))
    } else {
        None
    }
}

/// Position of a named effect in the effects sheet.
pub open spec fn sfx_index(name: Seq<char>) -> Option<int> {
    if name == "backspace"@ { Some(0) }
    else if name == "enter"@ { Some(1) }
    else if name == "tab"@ { Some(2) }
    else if name == "question"@ { Some(3) }
    else if name == "exclamation"@ { Some(4) }
    else if name == "at"@ { Some(5) }
    else if name == "pound"@ { Some(6) }
    else if name == "dollar"@ { Some(7) }
    else if name == "caret"@ { Some(8) }
    else if name == "ampersand"@ { Some(9) }
    else if name == "asterisk"@ { Some(10) }
    else if name == "parenthesis_open"@ { Some(11) }
    else if name == "parenthesis_closed"@ { Some(12) }
    else if name == "bracket_open"@ { Some(13) }
    else if name == "bracket_closed"@ { Some(14) }
    else if name == "brace_open"@ { Some(15) }
    else if name == "brace_closed"@ { Some(16) }
    else if name == "tilde"@ { Some(17) }
    else if name == "default"@ { Some(18) }
    else if name == "arrow_left"@ { Some(19) }
    else if name == "arrow_up"@ { Some(20) }
    else if name == "arrow_right"@ { Some(21) }
    else if name == "arrow_down"@ { Some(22) }
    else if name == "slash_forward"@ { Some(23) }
    else if name == "slash_back"@ { Some(24) }
    else if name == "percent"@ { Some(25) }
    else { None }
}

/// Start of a named effect in the effects sheet: its position times
/// `LONG_SLOT_MS`; `None` for an unknown name.
pub fn sfx_to_sprite_time(name: &str) -> (r: Option<Millis>)
    ensures
        r matches Some(t) ==> (sfx_index(name@) matches Some(i) && t.ms == LONG_SLOT_MS * i),
        r is None <==> sfx_index(name@) is None,
{
    let index: u64 = if str_eq(name, "backspace") { 0 }
    else if str_eq(name, "enter") { 1 }
    else if str_eq(name, "tab") { 2 }
    else if str_eq(name, "question") { 3 }
    else if str_eq(name, "exclamation") { 4 }
    else if str_eq(name, "at") { 5 }
    else if str_eq(name, "pound") { 6 }
    else if str_eq(name, "dollar") { 7 }
    else if str_eq(name, "caret") { 8 }
    else if str_eq(name, "ampersand") { 9 }
    else if str_eq(name, "asterisk") { 10 }
    else if str_eq(name, "parenthesis_open") { 11 }
    else if str_eq(name, "parenthesis_closed") { 12 }
    else if str_eq(name, "bracket_open") { 13 }
    else if str_eq(name, "bracket_closed") { 14 }
    else if str_eq(name, "brace_open") { 15 }
    else if str_eq(name, "brace_closed") { 16 }
    else if str_eq(name, "tilde") { 17 }
    else if str_eq(name, "default") { 18 }
    else if str_eq(name, "arrow_left") { 19 }
    else if str_eq(name, "arrow_up") { 20 }
    else if str_eq(name, "arrow_right") { 21 }
    else if str_eq(name, "arrow_down") { 22 }
    else if str_eq(name, "slash_forward") { 23 }
    else if str_eq(name, "slash_back") { 24 }
    else if str_eq(name, "percent") { 25 }
    else { return None; };
    Some(Millis::from_millis(index * LONG_SLOT_MS))
}

} // verus!
