//! The pulse executor: one pulse becomes an exact sequence of timed steps.
//!
//! A step either sets the binary output to a level or waits for a number
//! of milliseconds. A dot or dash always ends with the output back at
//! `Off` followed by a one-unit gap, so consecutive "on" phases can never
//! merge visually; the two pauses never touch the output at all.

use vstd::prelude::*;
use crate::pulse::{Pulse, TIME_UNIT, pulse_units, seq_units};

verus! {

/// The logical level of the single binary output.
#[derive(Clone, Copy, Debug, PartialEq, Eq, Structural)]
pub enum Level {
    On,
    Off,
}

/// One side effect of playback: drive the output to a level, or block
/// for the given number of milliseconds.
#[derive(Clone, Copy, Debug, PartialEq, Eq, Structural)]
pub enum Step {
    Output(Level),
    Wait(u32),
}

/// The exact step sequence each pulse performs: a dot is one unit on and a
/// one-unit gap, a dash three units on and a one-unit gap, and the pauses
/// are pure delays of three and seven units.
pub open spec fn pulse_steps(p: Pulse) -> Seq<Step> {
    match p {
        Pulse::Short => seq![
            Step::Output(Level::On),
            Step::Wait(TIME_UNIT),
            Step::Output(Level::Off),
            Step::Wait(TIME_UNIT),
        ],
        Pulse::Long => seq![
            Step::Output(Level::On),
            Step::Wait((3 * TIME_UNIT) as u32),
            Step::Output(Level::Off),
            Step::Wait(TIME_UNIT),
        ],
        Pulse::LetterPause => seq![Step::Wait((3 * TIME_UNIT) as u32)],
        Pulse::WordPause => seq![Step::Wait((7 * TIME_UNIT) as u32)],
    }
}

/// The step sequence of a whole pulse sequence: each pulse's steps in
/// order.
pub open spec fn pulses_steps(ps: Seq<Pulse>) -> Seq<Step>
    decreases ps.len(),
{
    if ps.len() == 0 {
        Seq::empty()
    } else {
        pulses_steps(ps.drop_last()) + pulse_steps(ps.last())
    }
}

/// How many delays a step sequence performs.
pub open spec fn delay_count(s: Seq<Step>) -> int
    decreases s.len(),
{
    if s.len() == 0 {
        0
    } else {
        delay_count(s.drop_last()) + if s.last() is Wait {
            1int
        } else {
            0int
        }
    }
}

/// How many output-level transitions a step sequence performs.
pub open spec fn transition_count(s: Seq<Step>) -> int
    decreases s.len(),
{
    if s.len() == 0 {
        0
    } else {
        transition_count(s.drop_last()) + if s.last() is Output {
            1int
        } else {
            0int
        }
    }
}

/// The total time a step sequence blocks for, in milliseconds.
pub open spec fn wait_ms(s: Seq<Step>) -> int
    decreases s.len(),
{
    if s.len() == 0 {
        0
    } else {
        wait_ms(s.drop_last()) + (match s.last() {
            Step::Wait(ms) => ms as int,
            Step::Output(_) => 0int,
        })
    }
}

/// Turn one pulse into the steps that perform it.
pub fn execute_morse_pulse(p: Pulse) -> (r: Vec<Step>)
    ensures
        r@ == pulse_steps(p),
{
    match p {
        Pulse::Short => vec![
            Step::Output(Level::On),
            Step::Wait(TIME_UNIT),
            Step::Output(Level::Off),
            Step::Wait(TIME_UNIT),
        ],
        Pulse::Long => vec![
            Step::Output(Level::On),
            Step::Wait(3 * TIME_UNIT),
            Step::Output(Level::Off),
            Step::Wait(TIME_UNIT),
        ],
        Pulse::LetterPause => vec![Step::Wait(3 * TIME_UNIT)],
        Pulse::WordPause => vec![Step::Wait(7 * TIME_UNIT)],
    }
}

/// Turn a pulse sequence into the steps that perform it, in order.
pub fn pulses_to_steps(pulses: &Vec<Pulse>) -> (r: Vec<Step>)
    ensures
        r@ == pulses_steps(pulses@),
{
    let mut r: Vec<Step> = Vec::new();
    let mut i: usize = 0;
    while i < pulses.len()
        invariant
            i <= pulses@.len(),
            r@ == pulses_steps(pulses@.take(i as int)),
        decreases pulses@.len() - i,
    {
        let mut steps = execute_morse_pulse(pulses[i]);
        r.append(&mut steps);
        proof {
            assert(pulses@.take(i + 1 as int).drop_last() =~= pulses@.take(i as int));
            assert(pulses@.take(i + 1 as int).last() == pulses@[i as int]);
        }
        i = i + 1;
    }
    proof {
        assert(pulses@.take(pulses@.len() as int) =~= pulses@);
    }
    r
}

/// Total milliseconds a pulse sequence's playback blocks for: the sum of
/// each pulse's defined duration, scaled by the base time unit.
pub fn total_duration_ms(pulses: &Vec<Pulse>) -> (d: u64)
    requires
        seq_units(pulses@) * TIME_UNIT <= u64::MAX,
    ensures
        d == seq_units(pulses@) * TIME_UNIT,
        d == wait_ms(pulses_steps(pulses@)),
{
    let mut d: u64 = 0;
    let mut i: usize = 0;
    while i < pulses.len()
        invariant
            i <= pulses@.len(),
            seq_units(pulses@) * TIME_UNIT <= u64::MAX,
            d == seq_units(pulses@.take(i as int)) * TIME_UNIT,
        decreases pulses@.len() - i,
    {
        proof {
            assert(pulses@.take(i as int + 1).drop_last() =~= pulses@.take(i as int));
            assert(pulses@.take(i as int + 1).last() == pulses@[i as int]);
            crate::pulse::lemma_seq_units_prefix(pulses@, i as int + 1);
            crate::pulse::lemma_seq_units_bounds(pulses@.take(i as int));
        }
        let step_ms = crate::pulse::pulse_duration_ms(pulses[i]);
        d = d + step_ms as u64;
        i = i + 1;
    }
    proof {
        assert(pulses@.take(pulses@.len() as int) =~= pulses@);
        lemma_playback_duration(pulses@);
    }
    d
}

/// A dot performs exactly two output-level transitions, on then off, and
/// two delays; a dash likewise; the two pauses perform no transition at
/// all, only a single delay. Every dot and dash ends with the output back
/// at `Off` followed by a one-unit gap, so consecutive "on" phases never
/// merge.
pub proof fn lemma_pulse_transition_count(p: Pulse)
    ensures
        transition_count(pulse_steps(p)) == (if p is Short || p is Long {
            2int
        } else {
            0int
        }),
        delay_count(pulse_steps(p)) == (if p is Short || p is Long {
            2int
        } else {
            1int
        }),
        p is Short || p is Long ==> {
            &&& pulse_steps(p)[0] == Step::Output(Level::On)
            &&& pulse_steps(p)[2] == Step::Output(Level::Off)
            &&& pulse_steps(p).last() == Step::Wait(TIME_UNIT)
        },
{
    reveal_with_fuel(transition_count, 6);
    reveal_with_fuel(delay_count, 6);
}

/// One pulse's steps block for exactly its defined duration: its unit
/// count times the base time unit.
pub proof fn lemma_pulse_wait_ms(p: Pulse)
    ensures
        wait_ms(pulse_steps(p)) == pulse_units(p) * TIME_UNIT,
{
    reveal_with_fuel(wait_ms, 6);
}

/// Step measures add up over concatenation.
pub proof fn lemma_measures_concat(a: Seq<Step>, b: Seq<Step>)
    ensures
        transition_count(a + b) == transition_count(a) + transition_count(b),
        wait_ms(a + b) == wait_ms(a) + wait_ms(b),
    decreases b.len(),
{
    if b.len() == 0 {
        assert(a + b =~= a);
    } else {
        assert((a + b).drop_last() =~= a + b.drop_last());
        assert((a + b).last() == b.last());
        lemma_measures_concat(a, b.drop_last());
    }
}

/// Total playback duration of any pulse sequence equals the sum of each
/// pulse's defined duration, scaled by the base time unit.
pub proof fn lemma_playback_duration(ps: Seq<Pulse>)
    ensures
        wait_ms(pulses_steps(ps)) == seq_units(ps) * TIME_UNIT,
    decreases ps.len(),
{
    if ps.len() > 0 {
        lemma_playback_duration(ps.drop_last());
        lemma_measures_concat(pulses_steps(ps.drop_last()), pulse_steps(ps.last()));
        lemma_pulse_wait_ms(ps.last());
    }
}

} // verus!
