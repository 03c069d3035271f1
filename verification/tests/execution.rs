use morse_code::executor::{execute_morse_pulse, pulses_to_steps, total_duration_ms, Level, Step};
use morse_code::pulse::{pulse_duration_ms, Pulse, TIME_UNIT};

#[test]
fn short_pulse_steps() {
    assert_eq!(
        execute_morse_pulse(Pulse::Short),
        vec![
            Step::Output(Level::On),
            Step::Wait(TIME_UNIT),
            Step::Output(Level::Off),
            Step::Wait(TIME_UNIT),
        ],
    );
}

#[test]
fn long_pulse_steps() {
    assert_eq!(
        execute_morse_pulse(Pulse::Long),
        vec![
            Step::Output(Level::On),
            Step::Wait(3 * TIME_UNIT),
            Step::Output(Level::Off),
            Step::Wait(TIME_UNIT),
        ],
    );
}

#[test]
fn pauses_are_pure_delays() {
    assert_eq!(
        execute_morse_pulse(Pulse::LetterPause),
        vec![Step::Wait(3 * TIME_UNIT)],
    );
    assert_eq!(
        execute_morse_pulse(Pulse::WordPause),
        vec![Step::Wait(7 * TIME_UNIT)],
    );
}

fn count_transitions(steps: &[Step]) -> usize {
    steps.iter().filter(|s| matches!(s, Step::Output(_))).count()
}

fn count_delays(steps: &[Step]) -> usize {
    steps.iter().filter(|s| matches!(s, Step::Wait(_))).count()
}

#[test]
fn short_has_two_transitions_and_two_delays() {
    let steps = execute_morse_pulse(Pulse::Short);
    assert_eq!(count_transitions(&steps), 2);
    assert_eq!(count_delays(&steps), 2);
    assert_eq!(steps[0], Step::Output(Level::On));
    assert_eq!(steps[2], Step::Output(Level::Off));
}

#[test]
fn pauses_have_zero_transitions() {
    assert_eq!(count_transitions(&execute_morse_pulse(Pulse::LetterPause)), 0);
    assert_eq!(count_transitions(&execute_morse_pulse(Pulse::WordPause)), 0);
}

#[test]
fn single_pulse_durations() {
    assert_eq!(pulse_duration_ms(Pulse::Short), 2 * TIME_UNIT);
    assert_eq!(pulse_duration_ms(Pulse::Long), 4 * TIME_UNIT);
    assert_eq!(pulse_duration_ms(Pulse::LetterPause), 3 * TIME_UNIT);
    assert_eq!(pulse_duration_ms(Pulse::WordPause), 7 * TIME_UNIT);
}

#[test]
fn sequence_duration_is_sum_of_pulse_durations() {
    let pulses = vec![
        Pulse::Short,
        Pulse::Long,
        Pulse::LetterPause,
        Pulse::WordPause,
        Pulse::Short,
    ];
    let expected_units: u64 = 2 + 4 + 3 + 7 + 2;
    assert_eq!(total_duration_ms(&pulses), expected_units * TIME_UNIT as u64);
}

#[test]
fn sequence_duration_matches_summed_waits() {
    let pulses = vec![Pulse::Long, Pulse::Short, Pulse::WordPause, Pulse::Long];
    let steps = pulses_to_steps(&pulses);
    let summed: u64 = steps
        .iter()
        .map(|s| match s {
            Step::Wait(ms) => *ms as u64,
            Step::Output(_) => 0,
        })
        .sum();
    assert_eq!(total_duration_ms(&pulses), summed);
}

#[test]
fn empty_sequence_has_zero_duration() {
    assert_eq!(total_duration_ms(&vec![]), 0);
    assert_eq!(pulses_to_steps(&vec![]), vec![]);
}

#[test]
fn steps_of_a_sequence_concatenate_in_order() {
    let pulses = vec![Pulse::Short, Pulse::LetterPause];
    let mut expected = execute_morse_pulse(Pulse::Short);
    expected.extend(execute_morse_pulse(Pulse::LetterPause));
    assert_eq!(pulses_to_steps(&pulses), expected);
}
