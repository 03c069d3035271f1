//! The character-to-pulse encoding table.
//!
//! A total mapping: the 26 Latin letters (either case) and the 10 decimal
//! digits map to their international Morse dot/dash sequence, the space
//! character maps to a single `WordPause`, and every other character maps
//! to the empty sequence. Lookups never fail.

use vstd::prelude::*;
use crate::pulse::Pulse;

verus! {

/// Uppercase normalization: each lowercase Latin letter maps to its
/// uppercase form; every other character is left unchanged.
pub open spec fn to_upper(c: char) -> char {
    if c == 'a' { 'A' }
    else if c == 'b' { 'B' }
    else if c == 'c' { 'C' }
    else if c == 'd' { 'D' }
    else if c == 'e' { 'E' }
    else if c == 'f' { 'F' }
    else if c == 'g' { 'G' }
    else if c == 'h' { 'H' }
    else if c == 'i' { 'I' }
    else if c == 'j' { 'J' }
    else if c == 'k' { 'K' }
    else if c == 'l' { 'L' }
    else if c == 'm' { 'M' }
    else if c == 'n' { 'N' }
    else if c == 'o' { 'O' }
    else if c == 'p' { 'P' }
    else if c == 'q' { 'Q' }
    else if c == 'r' { 'R' }
    else if c == 's' { 'S' }
    else if c == 't' { 'T' }
    else if c == 'u' { 'U' }
    else if c == 'v' { 'V' }
    else if c == 'w' { 'W' }
    else if c == 'x' { 'X' }
    else if c == 'y' { 'Y' }
    else if c == 'z' { 'Z' }
    else { c }
}

/// The international Morse table on already-normalized characters:
/// uppercase letters, digits and space. Anything else yields the empty
/// sequence.
pub open spec fn morse_table(c: char) -> Seq<Pulse> {
    if c == 'A' { seq![Pulse::Short, Pulse::Long] }
    else if c == 'B' { seq![Pulse::Long, Pulse::Short, Pulse::Short, Pulse::Short] }
    else if c == 'C' { seq![Pulse::Long, Pulse::Short, Pulse::Long, Pulse::Short] }
    else if c == 'D' { seq![Pulse::Long, Pulse::Short, Pulse::Short] }
    else if c == 'E' { seq![Pulse::Short] }
    else if c == 'F' { seq![Pulse::Short, Pulse::Short, Pulse::Long, Pulse::Short] }
    else if c == 'G' { seq![Pulse::Long, Pulse::Long, Pulse::Short] }
    else if c == 'H' { seq![Pulse::Short, Pulse::Short, Pulse::Short, Pulse::Short] }
    else if c == 'I' { seq![Pulse::Short, Pulse::Short] }
    else if c == 'J' { seq![Pulse::Short, Pulse::Long, Pulse::Long, Pulse::Long] }
    else if c == 'K' { seq![Pulse::Long, Pulse::Short, Pulse::Long] }
    else if c == 'L' { seq![Pulse::Short, Pulse::Long, Pulse::Short, Pulse::Short] }
    else if c == 'M' { seq![Pulse::Long, Pulse::Long] }
    else if c == 'N' { seq![Pulse::Long, Pulse::Short] }
    else if c == 'O' { seq![Pulse::Long, Pulse::Long, Pulse::Long] }
    else if c == 'P' { seq![Pulse::Short, Pulse::Long, Pulse::Long, Pulse::Short] }
    else if c == 'Q' { seq![Pulse::Long, Pulse::Long, Pulse::Short, Pulse::Long] }
    else if c == 'R' { seq![Pulse::Short, Pulse::Long, Pulse::Short] }
    else if c == 'S' { seq![Pulse::Short, Pulse::Short, Pulse::Short] }
    else if c == 'T' { seq![Pulse::Long] }
    else if c == 'U' { seq![Pulse::Short, Pulse::Short, Pulse::Long] }
    else if c == 'V' { seq![Pulse::Short, Pulse::Short, Pulse::Short, Pulse::Long] }
    else if c == 'W' { seq![Pulse::Short, Pulse::Long, Pulse::Long] }
    else if c == 'X' { seq![Pulse::Long, Pulse::Short, Pulse::Short, Pulse::Long] }
    else if c == 'Y' { seq![Pulse::Long, Pulse::Short, Pulse::Long, Pulse::Long] }
    else if c == 'Z' { seq![Pulse::Long, Pulse::Long, Pulse::Short, Pulse::Short] }
    else if c == '0' { seq![Pulse::Long, Pulse::Long, Pulse::Long, Pulse::Long, Pulse::Long] }
    else if c == '1' { seq![Pulse::Short, Pulse::Long, Pulse::Long, Pulse::Long, Pulse::Long] }
    else if c == '2' { seq![Pulse::Short, Pulse::Short, Pulse::Long, Pulse::Long, Pulse::Long] }
    else if c == '3' { seq![Pulse::Short, Pulse::Short, Pulse::Short, Pulse::Long, Pulse::Long] }
    else if c == '4' { seq![Pulse::Short, Pulse::Short, Pulse::Short, Pulse::Short, Pulse::Long] }
    else if c == '5' { seq![Pulse::Short, Pulse::Short, Pulse::Short, Pulse::Short, Pulse::Short] }
    else if c == '6' { seq![Pulse::Long, Pulse::Short, Pulse::Short, Pulse::Short, Pulse::Short] }
    else if c == '7' { seq![Pulse::Long, Pulse::Long, Pulse::Short, Pulse::Short, Pulse::Short] }
    else if c == '8' { seq![Pulse::Long, Pulse::Long, Pulse::Long, Pulse::Short, Pulse::Short] }
    else if c == '9' { seq![Pulse::Long, Pulse::Long, Pulse::Long, Pulse::Long, Pulse::Short] }
    else if c == ' ' { seq![Pulse::WordPause] }
    else { Seq::empty() }
}

/// What any character encodes to: its case-normalized table entry.
pub open spec fn morse_pulses(c: char) -> Seq<Pulse> {
    morse_table(to_upper(c))
}

/// The characters the table supports: Latin letters of either case,
/// decimal digits, and the space character.
pub open spec fn is_supported(c: char) -> bool {
    ||| ('A' as u32) <= (c as u32) <= ('Z' as u32)
    ||| ('a' as u32) <= (c as u32) <= ('z' as u32)
    ||| ('0' as u32) <= (c as u32) <= ('9' as u32)
    ||| c == ' '
}

/// Encode one character as its Morse pulse sequence. Case-insensitive and
/// total: unsupported characters encode to the empty sequence.
pub fn char_to_morse_pulses(c: char) -> (r: Vec<Pulse>)
    ensures
        r@ == morse_pulses(c),
{
    match c {
        'A' | 'a' => vec![Pulse::Short, Pulse::Long],
        'B' | 'b' => vec![Pulse::Long, Pulse::Short, Pulse::Short, Pulse::Short],
        'C' | 'c' => vec![Pulse::Long, Pulse::Short, Pulse::Long, Pulse::Short],
        'D' | 'd' => vec![Pulse::Long, Pulse::Short, Pulse::Short],
        'E' | 'e' => vec![Pulse::Short],
        'F' | 'f' => vec![Pulse::Short, Pulse::Short, Pulse::Long, Pulse::Short],
        'G' | 'g' => vec![Pulse::Long, Pulse::Long, Pulse::Short],
        'H' | 'h' => vec![Pulse::Short, Pulse::Short, Pulse::Short, Pulse::Short],
        'I' | 'i' => vec![Pulse::Short, Pulse::Short],
        'J' | 'j' => vec![Pulse::Short, Pulse::Long, Pulse::Long, Pulse::Long],
        'K' | 'k' => vec![Pulse::Long, Pulse::Short, Pulse::Long],
        'L' | 'l' => vec![Pulse::Short, Pulse::Long, Pulse::Short, Pulse::Short],
        'M' | 'm' => vec![Pulse::Long, Pulse::Long],
        'N' | 'n' => vec![Pulse::Long, Pulse::Short],
        'O' | 'o' => vec![Pulse::Long, Pulse::Long, Pulse::Long],
        'P' | 'p' => vec![Pulse::Short, Pulse::Long, Pulse::Long, Pulse::Short],
        'Q' | 'q' => vec![Pulse::Long, Pulse::Long, Pulse::Short, Pulse::Long],
        'R' | 'r' => vec![Pulse::Short, Pulse::Long, Pulse::Short],
        'S' | 's' => vec![Pulse::Short, Pulse::Short, Pulse::Short],
        'T' | 't' => vec![Pulse::Long],
        'U' | 'u' => vec![Pulse::Short, Pulse::Short, Pulse::Long],
        'V' | 'v' => vec![Pulse::Short, Pulse::Short, Pulse::Short, Pulse::Long],
        'W' | 'w' => vec![Pulse::Short, Pulse::Long, Pulse::Long],
        'X' | 'x' => vec![Pulse::Long, Pulse::Short, Pulse::Short, Pulse::Long],
        'Y' | 'y' => vec![Pulse::Long, Pulse::Short, Pulse::Long, Pulse::Long],
        'Z' | 'z' => vec![Pulse::Long, Pulse::Long, Pulse::Short, Pulse::Short],
        '0' => vec![Pulse::Long, Pulse::Long, Pulse::Long, Pulse::Long, Pulse::Long],
        '1' => vec![Pulse::Short, Pulse::Long, Pulse::Long, Pulse::Long, Pulse::Long],
        '2' => vec![Pulse::Short, Pulse::Short, Pulse::Long, Pulse::Long, Pulse::Long],
        '3' => vec![Pulse::Short, Pulse::Short, Pulse::Short, Pulse::Long, Pulse::Long],
        '4' => vec![Pulse::Short, Pulse::Short, Pulse::Short, Pulse::Short, Pulse::Long],
        '5' => vec![Pulse::Short, Pulse::Short, Pulse::Short, Pulse::Short, Pulse::Short],
        '6' => vec![Pulse::Long, Pulse::Short, Pulse::Short, Pulse::Short, Pulse::Short],
        '7' => vec![Pulse::Long, Pulse::Long, Pulse::Short, Pulse::Short, Pulse::Short],
        '8' => vec![Pulse::Long, Pulse::Long, Pulse::Long, Pulse::Short, Pulse::Short],
        '9' => vec![Pulse::Long, Pulse::Long, Pulse::Long, Pulse::Long, Pulse::Short],
        ' ' => vec![Pulse::WordPause],
        _ => Vec::new(),
    }
}

/// Encoding is case-insensitive: a character and its uppercase form encode
/// to the same pulse sequence.
pub proof fn lemma_encode_case_insensitive(c: char)
    ensures
        morse_pulses(c) == morse_pulses(to_upper(c)),
{
}

/// An unsupported character encodes to the empty pulse sequence.
pub proof fn lemma_unsupported_encodes_empty(c: char)
    requires
        !is_supported(c),
    ensures
        morse_pulses(c) == Seq::<Pulse>::empty(),
{
}

} // verus!

