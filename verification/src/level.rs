//! Compression levels: how one is read from text and what it promises.

use crate::options::{valid_level, MAX_LEVEL, MIN_LEVEL};
use crate::text::{append_signed_decimal, parse_i32, parse_integer, signed_decimal};
use vstd::prelude::*;

verus! {

/// What the reading of a compression level from `text` gives: the level
/// where the text is an integer between 1 and 21, and otherwise a message
/// that names the text that is no integer or the integer that is out of
/// range.
pub open spec fn level_of(text: Seq<char>) -> Result<i32, Seq<char>> {
    match parse_integer(text) {
        None => Err("Valore '"@ + text + "' non valido: specifica un intero tra 1 e 21"@),
        Some(value) => if valid_level(value) {
            Ok(value as i32)
        } else {
            Err(
                "Livello "@ + signed_decimal(value)
                    + " fuori intervallo: usa un valore tra 1 e 21"@,
            )
        },
    }
}

/// Reads a compression level and validates it.
pub fn parse_level(s: &str) -> (level: Result<i32, String>)
    ensures
        match level {
            Ok(v) => level_of(s@) == Ok::<i32, Seq<char>>(v) && valid_level(v as int),
            Err(message) => level_of(s@) == Err::<i32, Seq<char>>(message@),
        },
{
    match parse_i32(s) {
        None => {
            let mut message = "Valore '".to_owned();
            message.append(s);
            message.append("' non valido: specifica un intero tra 1 e 21");
            Err(message)
        },
        Some(v) => {
            if MIN_LEVEL <= v && v <= MAX_LEVEL {
                Ok(v)
            } else {
                let mut message = "Livello ".to_owned();
                append_signed_decimal(&mut message, v);
                message.append(" fuori intervallo: usa un valore tra 1 e 21");
                Err(message)
            }
        },
    }
}

/// What a compression level promises in speed.
pub open spec fn level_hint(level: i32) -> Seq<char> {
    if 1 <= level <= 3 {
        "(veloce)"@
    } else if 4 <= level <= 9 {
        "(bilanciato)"@
    } else if 10 <= level <= 15 {
        "(lento)"@
    } else if 16 <= level <= 21 {
        "(molto lento)"@
    } else {
        ""@
    }
}

/// A short hint of what a compression level promises in speed; empty for a
/// level the engine does not accept.
pub fn compression_level_hint(level: i32) -> (hint: &'static str)
    ensures
        hint@ == level_hint(level),
{
    if 1 <= level && level <= 3 {
        "(veloce)"
    } else if 4 <= level && level <= 9 {
        "(bilanciato)"
    } else if 10 <= level && level <= 15 {
        "(lento)"
    } else if 16 <= level && level <= 21 {
        "(molto lento)"
    } else {
        ""
    }
}

} // verus!
