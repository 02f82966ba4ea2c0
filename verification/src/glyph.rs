use vstd::prelude::*;

verus! {

/// The code page 437 index that `bracket_lib::prelude::to_cp437` gives a character.
pub uninterp spec fn cp437_code(c: char) -> u16;

/// Calls `bracket_lib::prelude::to_cp437`, a fixed table from characters to
/// font indices. The contract only gives the result its name.
#[verifier::external_body]
fn to_glyph(c: char) -> (code: u16)
    ensures
        code == cp437_code(c),
{
    bracket_lib::prelude::to_cp437(c)
}

/// The index under which a character is found in the terminal's font.
pub fn glyph_of(c: char) -> (code: u16)
    ensures
        code == cp437_code(c),
{
    to_glyph(c)
}

} // verus!
