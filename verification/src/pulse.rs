//! The atomic unit of Morse signalling and its timing.
//!
//! A `Pulse` is a dot (`Short`), a dash (`Long`), or a pure delay
//! (`LetterPause` between characters, `WordPause` for a space). All
//! durations are integer multiples of the single base time unit.

use vstd::prelude::*;

verus! {

/// Base duration in milliseconds; every pulse and pause lasts an integer
/// multiple of it.
pub const TIME_UNIT: u32 = 75;

/// One atomic unit of Morse signalling.
#[derive(Clone, Copy, Debug, PartialEq, Eq, Structural)]
pub enum Pulse {
    Short,
    Long,
    LetterPause,
    WordPause,
}

/// Total time taken by one pulse, in base time units: a dot is one unit on
/// plus a one-unit gap, a dash three units on plus a one-unit gap, and the
/// pauses are pure delays of three and seven units.
pub open spec fn pulse_units(p: Pulse) -> int {
    match p {
        Pulse::Short => 2,
        Pulse::Long => 4,
        Pulse::LetterPause => 3,
        Pulse::WordPause => 7,
    }
}

/// Total time taken by a pulse sequence, in base time units.
pub open spec fn seq_units(ps: Seq<Pulse>) -> int
    decreases ps.len(),
{
    if ps.len() == 0 {
        0
    } else {
        seq_units(ps.drop_last()) + pulse_units(ps.last())
    }
}

/// A pulse sequence's duration is never negative and never exceeds seven
/// units per pulse, the longest any single pulse takes.
pub proof fn lemma_seq_units_bounds(ps: Seq<Pulse>)
    ensures
        0 <= seq_units(ps) <= 7 * ps.len(),
    decreases ps.len(),
{
    if ps.len() > 0 {
        lemma_seq_units_bounds(ps.drop_last());
    }
}

/// A prefix of a pulse sequence never takes longer than the whole.
pub proof fn lemma_seq_units_prefix(ps: Seq<Pulse>, i: int)
    requires
        0 <= i <= ps.len(),
    ensures
        seq_units(ps.take(i)) <= seq_units(ps),
    decreases ps.len(),
{
    if i < ps.len() {
        lemma_seq_units_prefix(ps.drop_last(), i);
        assert(ps.drop_last().take(i) =~= ps.take(i));
    } else {
        assert(ps.take(i) =~= ps);
    }
}

/// Milliseconds one pulse takes: its unit count times the base time unit.
pub fn pulse_duration_ms(p: Pulse) -> (d: u32)
    ensures
        d == pulse_units(p) * TIME_UNIT,
{
    match p {
        Pulse::Short => 2 * TIME_UNIT,
        Pulse::Long => 4 * TIME_UNIT,
        Pulse::LetterPause => 3 * TIME_UNIT,
        Pulse::WordPause => 7 * TIME_UNIT,
    }
}

} // verus!
