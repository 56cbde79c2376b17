//! What a successful script stage leaves behind: its output, without terminal
//! escape codes, becomes the stage's artifact.

use vstd::prelude::*;

use crate::workflow::adapters::diff::{lossy_text, utf8_lossy};

verus! {

/// The bytes that remain of a text once `strip_ansi_escapes::strip` removed
/// its ANSI escape sequences.
pub uninterp spec fn ansi_stripped(text: Seq<char>) -> Seq<u8>;

/// Removes ANSI escape sequences (`strip_ansi_escapes::strip`). The function
/// depends on its input alone; it writes into a `Vec`, which cannot fail, so
/// it does not panic.
#[verifier::external_body]
fn strip_escapes(input: &str) -> (r: Vec<u8>)
    ensures
        r@ == ansi_stripped(input@),
{
    strip_ansi_escapes::strip(input)
}

/// Script output for an agent to read: without ANSI escape codes, decoded as
/// UTF-8 with invalid sequences replaced.
pub fn strip_ansi_codes(input: &str) -> (r: String)
    ensures
        r@ == utf8_lossy(ansi_stripped(input@)),
{
    let bytes = strip_escapes(input);
    lossy_text(&bytes)
}

} // verus!
