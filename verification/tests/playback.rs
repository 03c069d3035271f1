use morse_code::executor::{pulses_to_steps, total_duration_ms, Level, Step};
use morse_code::player::{message_to_pulses, Player};
use morse_code::pulse::{Pulse, TIME_UNIT};

fn on() -> Step {
    Step::Output(Level::On)
}

fn off() -> Step {
    Step::Output(Level::Off)
}

fn wait(units: u32) -> Step {
    Step::Wait(units * TIME_UNIT)
}

fn s_steps() -> Vec<Step> {
    let mut v = Vec::new();
    for _ in 0..3 {
        v.extend([on(), wait(1), off(), wait(1)]);
    }
    v
}

fn o_steps() -> Vec<Step> {
    let mut v = Vec::new();
    for _ in 0..3 {
        v.extend([on(), wait(3), off(), wait(1)]);
    }
    v
}

#[test]
fn sos_plays_s_o_s_with_letter_pauses() {
    let msg = vec!['S', 'O', 'S'];
    let mut expected: Vec<Step> = Vec::new();
    expected.extend(s_steps());
    expected.push(wait(3));
    expected.extend(o_steps());
    expected.push(wait(3));
    expected.extend(s_steps());
    expected.push(wait(3));

    let pulses = message_to_pulses(&msg);
    assert_eq!(pulses_to_steps(&pulses), expected);

    let mut player = Player::new(msg);
    let mut played: Vec<Step> = Vec::new();
    for _ in 0..3 {
        played.extend(player.next_char_steps());
    }
    assert_eq!(played, expected);
}

#[test]
fn sos_total_duration_follows_pulse_durations() {
    // S is 3 dots of 2 units, O is 3 dashes of 4 units, and each character
    // is followed by a 3-unit letter pause: (6 + 3) + (12 + 3) + (6 + 3).
    let pulses = message_to_pulses(&vec!['S', 'O', 'S']);
    assert_eq!(total_duration_ms(&pulses), 33 * TIME_UNIT as u64);
}

#[test]
fn message_pulses_append_letter_pause_after_every_character() {
    let pulses = message_to_pulses(&vec!['E', 'E']);
    assert_eq!(
        pulses,
        vec![
            Pulse::Short,
            Pulse::LetterPause,
            Pulse::Short,
            Pulse::LetterPause,
        ],
    );
}

#[test]
fn space_keeps_its_trailing_letter_pause() {
    // A space still gets the unconditional letter pause, so a word gap
    // plays as 7 + 3 = 10 units of silence.
    let pulses = message_to_pulses(&vec![' ']);
    assert_eq!(pulses, vec![Pulse::WordPause, Pulse::LetterPause]);
    assert_eq!(total_duration_ms(&pulses), 10 * TIME_UNIT as u64);
}

#[test]
fn playback_wraps_to_first_character_after_the_last() {
    let msg = vec!['H', 'E', 'L', 'L', 'O'];
    let mut player = Player::new(msg.clone());
    for k in 0..23 {
        let c = player.next_char();
        assert_eq!(c, msg[k % msg.len()], "call {k}");
    }
}

#[test]
fn single_character_message_repeats_it_forever() {
    let mut player = Player::new(vec!['E']);
    for _ in 0..10 {
        assert_eq!(player.next_char(), 'E');
    }
}

#[test]
fn wrapped_steps_match_first_pass_steps() {
    let msg = vec!['A', 'B'];
    let mut player = Player::new(msg);
    let first_a = player.next_char_steps();
    let first_b = player.next_char_steps();
    // The third and fourth characters wrap to the start of the message.
    assert_eq!(player.next_char_steps(), first_a);
    assert_eq!(player.next_char_steps(), first_b);
}
