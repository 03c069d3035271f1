//! The playback sequencer.
//!
//! A `Player` walks a fixed, non-empty message one character at a time
//! and wraps back to the first character after the last, forever: the
//! character handed out on the k-th request is always the message's
//! character at position k modulo the message length. Each character's
//! pulses are followed by one unconditional `LetterPause`, space
//! characters included.

use vstd::prelude::*;
use crate::encoder::{char_to_morse_pulses, morse_pulses};
use crate::executor::{Step, pulses_steps, pulses_to_steps};
use crate::pulse::Pulse;

verus! {

/// The steps one character of playback performs: the character's pulses,
/// then one unconditional letter pause.
pub open spec fn char_playback_steps(c: char) -> Seq<Step> {
    pulses_steps(morse_pulses(c).push(Pulse::LetterPause))
}

/// The pulses one full pass over a message plays: each character's
/// encoding followed by one unconditional letter pause, in message order.
pub open spec fn message_pulses(s: Seq<char>) -> Seq<Pulse>
    decreases s.len(),
{
    if s.len() == 0 {
        Seq::empty()
    } else {
        message_pulses(s.drop_last()) + morse_pulses(s.last()).push(Pulse::LetterPause)
    }
}

/// Expand one full pass over a message into its pulse sequence: each
/// character's encoding, then one unconditional letter pause — after a
/// space as well, so a word boundary plays as a seven-unit word pause
/// plus a three-unit letter pause.
pub fn message_to_pulses(msg: &Vec<char>) -> (r: Vec<Pulse>)
    ensures
        r@ == message_pulses(msg@),
{
    let mut r: Vec<Pulse> = Vec::new();
    let mut i: usize = 0;
    while i < msg.len()
        invariant
            i <= msg@.len(),
            r@ == message_pulses(msg@.take(i as int)),
        decreases msg@.len() - i,
    {
        let mut pulses = char_to_morse_pulses(msg[i]);
        pulses.push(Pulse::LetterPause);
        r.append(&mut pulses);
        proof {
            assert(msg@.take(i as int + 1).drop_last() =~= msg@.take(i as int));
            assert(msg@.take(i as int + 1).last() == msg@[i as int]);
        }
        i = i + 1;
    }
    proof {
        assert(msg@.take(msg@.len() as int) =~= msg@);
    }
    r
}

/// An endlessly repeating walk over a fixed, non-empty message.
pub struct Player {
    msg: Vec<char>,
    pos: usize,
    played: Ghost<nat>,
}

impl Player {
    /// The fixed message this player repeats.
    pub closed spec fn message(&self) -> Seq<char> {
        self.msg@
    }

    /// How many characters have been played since construction, counted
    /// across wraparounds.
    pub closed spec fn play_count(&self) -> nat {
        self.played@
    }

    /// Well-formedness: the message is non-empty and the cursor stands at
    /// the play count reduced modulo the message length.
    pub closed spec fn wf(&self) -> bool {
        &&& self.msg@.len() > 0
        &&& self.pos == self.played@ % self.msg@.len()
    }

    /// Start playback at the first character of a non-empty message.
    pub fn new(msg: Vec<char>) -> (p: Player)
        requires
            msg@.len() > 0,
        ensures
            p.wf(),
            p.message() == msg@,
            p.play_count() == 0,
    {
        proof {
            vstd::arithmetic::div_mod::lemma_small_mod(0, msg@.len());
        }
        Player { msg, pos: 0, played: Ghost(0nat) }
    }

    /// Hand out the next character to play and advance the cursor,
    /// wrapping to the first character after the last: the k-th call
    /// since construction returns the message's character at position
    /// k modulo the message length, so playback never runs out.
    pub fn next_char(&mut self) -> (c: char)
        requires
            old(self).wf(),
        ensures
            final(self).wf(),
            final(self).message() == old(self).message(),
            final(self).play_count() == old(self).play_count() + 1,
            c == old(self).message()[(old(self).play_count() % old(self).message().len()) as int],
    {
        proof {
            vstd::arithmetic::div_mod::lemma_mod_bound(
                old(self).played@ as int,
                old(self).msg@.len() as int,
            );
        }
        let len = self.msg.len();
        let c = self.msg[self.pos];
        self.pos = if self.pos + 1 == len {
            0
        } else {
            self.pos + 1
        };
        proof {
            self.played@ = self.played@ + 1;
            let k = old(self).played@ as int;
            let n = old(self).msg@.len() as int;
            let q = k / n;
            let p0 = old(self).pos as int;
            vstd::arithmetic::div_mod::lemma_fundamental_div_mod(k, n);
            if p0 + 1 == n {
                assert(k + 1 == n * (q + 1) + 0) by (nonlinear_arith)
                    requires k == n * q + p0, p0 + 1 == n;
                vstd::arithmetic::div_mod::lemma_mod_multiples_vanish(q + 1, 0, n);
                vstd::arithmetic::div_mod::lemma_small_mod(0, n as nat);
            } else {
                vstd::arithmetic::div_mod::lemma_mod_multiples_vanish(q, old(self).pos + 1, n);
                vstd::arithmetic::div_mod::lemma_small_mod((old(self).pos + 1) as nat, n as nat);
            }
        }
        c
    }

    /// Produce the steps for the next character of playback: its pulse
    /// sequence followed by one unconditional letter pause. Advances the
    /// cursor exactly as `next_char` does.
    pub fn next_char_steps(&mut self) -> (r: Vec<Step>)
        requires
            old(self).wf(),
        ensures
            final(self).wf(),
            final(self).message() == old(self).message(),
            final(self).play_count() == old(self).play_count() + 1,
            r@ == char_playback_steps(
                old(self).message()[(old(self).play_count() % old(self).message().len()) as int],
            ),
    {
        let c = self.next_char();
        let mut pulses = char_to_morse_pulses(c);
        pulses.push(Pulse::LetterPause);
        pulses_to_steps(&pulses)
    }
}

} // verus!
