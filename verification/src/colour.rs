//! Terminal colours and the integer codes under which they are persisted.
//!
//! A colour is one entry of the 256-value ANSI-style terminal palette,
//! identified by its code; the 16 classic colours are codes 0 through 15.
//! Optional colour fields persist as a single integer: the colour's own
//! code, or a sentinel that lies outside the valid code range, so that
//! "unset" can never collide with a real colour.

use vstd::prelude::*;

verus! {

/// Highest integer code that names a real colour of the palette.
pub const MAX_COLOUR_CODE: u16 = 255;

/// Code under which an absent optional colour is persisted; it lies
/// outside the valid colour range, so it never collides with a colour.
pub const UNSET_COLOUR_CODE: u16 = 256;

/// One colour of the 256-value ANSI-style terminal palette.
#[derive(Clone, Copy, PartialEq, Eq, Structural, Debug)]
pub struct Colour {
    /// The colour's position in the palette.
    pub code: u8,
}

/// The integer code under which an optional colour is persisted.
pub open spec fn spec_encode_colour(c: Option<Colour>) -> u16 {
    match c {
        Some(col) => col.code as u16,
        None => UNSET_COLOUR_CODE,
    }
}

/// The optional colour a persisted code stands for; `None` when the code
/// is neither a colour nor the unset sentinel.
pub open spec fn spec_decode_colour(code: u16) -> Option<Option<Colour>> {
    if code <= MAX_COLOUR_CODE {
        Some(Some(Colour { code: code as u8 }))
    } else if code == UNSET_COLOUR_CODE {
        Some(None)
    } else {
        None
    }
}

/// Encodes an optional colour for storage.
pub fn encode_colour(c: Option<Colour>) -> (r: u16)
    ensures
        r == spec_encode_colour(c),
{
    match c {
        Some(col) => col.code as u16,
        None => UNSET_COLOUR_CODE,
    }
}

/// Reads an optional colour back from its persisted code, rejecting any
/// code that names neither a colour nor the unset sentinel.
pub fn decode_colour(code: u16) -> (r: Option<Option<Colour>>)
    ensures
        r == spec_decode_colour(code),
{
    if code <= MAX_COLOUR_CODE {
        Some(Some(Colour { code: code as u8 }))
    } else if code == UNSET_COLOUR_CODE {
        Some(None)
    } else {
        None
    }
}

/// Encoding then decoding an optional colour reproduces it exactly,
/// for every colour of the palette and for the unset state alike.
pub proof fn lemma_colour_round_trip(c: Option<Colour>)
    ensures
        spec_decode_colour(spec_encode_colour(c)) == Some(c),
{
}

/// Every code a colour field may hold on disk decodes, and encoding the
/// decoded value gives the code back: the persisted form is lossless in
/// both directions.
pub proof fn lemma_colour_code_round_trip(code: u16)
    requires
        code <= UNSET_COLOUR_CODE,
    ensures
        spec_decode_colour(code) matches Some(c) && spec_encode_colour(c) == code,
{
}

} // verus!
