use dht_decoder::capture::decode_script;
use dht_decoder::decoder::{Decoder, MAX_REPORTS};
use dht_decoder::frame::DecodeError;
use dht_decoder::line::{Action, Event, LineMode};
use dht_decoder::reading::{convert, reading_or_sentinel, Reading};
use dht_decoder::timing::{
    MAX_TRANSITIONS, POWER_UP_MILLIS, RELEASE_MICROS, START_PULSE_MILLIS, TICK_CAP, TICK_MICROS,
};

/// The samples that a wait sees for one level change after `ticks` ticks:
/// the old level once per tick, the new level, and the new level once more
/// for the sample that settles the wait.
fn push_transition(script: &mut Vec<bool>, level: &mut bool, ticks: usize) {
    for _ in 0..ticks {
        script.push(*level);
    }
    *level = !*level;
    script.push(*level);
    script.push(*level);
}

/// The samples of the sensor's preamble and of the first `bits` bits of
/// `bytes`, each bit followed by its separator.
fn script_for_bits(bytes: [u8; 5], bits: usize) -> Vec<bool> {
    let mut script = Vec::new();
    let mut level = true;
    for _ in 0..4 {
        push_transition(&mut script, &mut level, 10);
    }
    for index in 0..bits {
        let one = bytes[index / 8] >> (7 - index % 8) & 1 == 1;
        push_transition(&mut script, &mut level, if one { 40 } else { 12 });
        push_transition(&mut script, &mut level, 10);
    }
    script
}

fn script_for(bytes: [u8; 5]) -> Vec<bool> {
    script_for_bits(bytes, 40)
}

/// A line on the bench: it follows the mode that the actions put it in and
/// answers samples from a script.
struct Bench {
    mode: LineMode,
    script: Vec<bool>,
    idle: bool,
    position: usize,
    log: Vec<Action>,
}

impl Bench {
    fn new(script: Vec<bool>, idle: bool) -> Bench {
        Bench { mode: LineMode::Output, script, idle, position: 0, log: Vec::new() }
    }

    fn carry_out(&mut self, action: Action) -> Event {
        self.mode = self.mode.perform(action).unwrap();
        self.log.push(action);
        match action {
            Action::Sample => {
                let level = *self.script.get(self.position).unwrap_or(&self.idle);
                self.position += 1;
                Event::Level(level)
            }
            _ => Event::Done,
        }
    }

    fn decode(&mut self) -> Decoder {
        let mut decoder = Decoder::new();
        let mut action = decoder.pending();
        while action != Action::Finish {
            let event = self.carry_out(action);
            action = decoder.step(event);
        }
        decoder
    }
}

#[test]
fn decode_starts_with_the_reset_sequence() {
    let mut bench = Bench::new(Vec::new(), true);
    bench.decode();
    assert_eq!(
        bench.log[..8],
        [
            Action::DriveHigh,
            Action::DelayMillis(250),
            Action::DriveLow,
            Action::DelayMillis(20),
            Action::DriveHigh,
            Action::DelayMicros(40),
            Action::Listen,
            Action::Sample,
        ]
    );
}

#[test]
fn timing_constants() {
    assert_eq!(POWER_UP_MILLIS, 250);
    assert_eq!(START_PULSE_MILLIS, 20);
    assert_eq!(RELEASE_MICROS, 40);
    assert_eq!(TICK_MICROS, 1);
    assert_eq!(TICK_CAP, 255);
    assert_eq!(MAX_TRANSITIONS, 85);
}

#[test]
fn new_decoder_has_done_nothing() {
    let decoder = Decoder::new();
    assert_eq!(decoder.pending(), Action::DriveHigh);
    assert_eq!(decoder.line_mode(), LineMode::Output);
    assert_eq!(decoder.bit_count(), 0);
    assert_eq!(decoder.transition_count(), 0);
    assert!(!decoder.is_finished());
    assert!(!decoder.timed_out());
    assert_eq!(decoder.outcome(), None);
}

#[test]
fn silent_line_times_out_with_no_bits() {
    let mut bench = Bench::new(Vec::new(), true);
    let decoder = bench.decode();
    assert!(decoder.is_finished());
    assert_eq!(decoder.outcome(), Some(Err(DecodeError::Timeout)));
    assert_eq!(decoder.bit_count(), 0);
    assert_eq!(decoder.transition_count(), 0);
    assert!(decoder.timed_out());
    assert_eq!(decoder.line_mode(), LineMode::Output);
    assert_eq!(bench.mode, LineMode::Output);
    assert_eq!(bench.log.last(), Some(&Action::Reclaim));
}

#[test]
fn silent_line_is_sampled_once_per_tick_and_once_more() {
    let mut bench = Bench::new(Vec::new(), true);
    bench.decode();
    let samples = bench.log.iter().filter(|action| **action == Action::Sample).count();
    let ticks = bench.log.iter().filter(|action| **action == Action::DelayMicros(1)).count();
    assert_eq!(samples, 256);
    assert_eq!(ticks, 255);
    assert_eq!(bench.log.len(), 7 + 256 + 255 + 1);
}

#[test]
fn scripted_silent_line_times_out_with_no_bits() {
    let decoder = decode_script(&[], true);
    assert!(decoder.is_finished());
    assert_eq!(decoder.outcome(), Some(Err(DecodeError::Timeout)));
    assert_eq!(decoder.bit_count(), 0);
    assert_eq!(decoder.line_mode(), LineMode::Output);
}

#[test]
fn line_stuck_low_is_one_transition_and_a_timeout() {
    let decoder = decode_script(&[], false);
    assert_eq!(decoder.outcome(), Some(Err(DecodeError::Timeout)));
    assert_eq!(decoder.transition_count(), 1);
    assert_eq!(decoder.bit_count(), 0);
    assert_eq!(decoder.line_mode(), LineMode::Output);
}

#[test]
fn frame_with_positive_temperature_decodes() {
    let decoder = decode_script(&script_for([65, 0, 25, 0, 90]), true);
    let frame = decoder.outcome().unwrap().unwrap();
    assert_eq!(frame.bytes(), [65, 0, 25, 0, 90]);
    assert_eq!(convert(&frame), Reading { temperature: 25, humidity: 65 });
    assert_eq!(decoder.bit_count(), 40);
    assert_eq!(decoder.line_mode(), LineMode::Output);
}

#[test]
fn frame_with_sign_flag_decodes() {
    let decoder = decode_script(&script_for([65, 0, 25, 128, 218]), true);
    let frame = decoder.outcome().unwrap().unwrap();
    assert_eq!(frame.bytes(), [65, 0, 25, 128, 218]);
    assert_eq!(convert(&frame), Reading { temperature: -25, humidity: 65 });
}

#[test]
fn frame_with_checksum_mismatch_fails() {
    let decoder = decode_script(&script_for([65, 0, 25, 0, 91]), true);
    assert_eq!(decoder.outcome(), Some(Err(DecodeError::Checksum)));
    assert_eq!(decoder.bit_count(), 40);
    assert_eq!(decoder.line_mode(), LineMode::Output);
    assert_eq!(reading_or_sentinel(&decoder.outcome().unwrap()), Reading::sentinel());
}

#[test]
fn bench_and_scripted_decode_agree() {
    for bytes in [[65, 0, 25, 0, 90], [65, 0, 25, 0, 91], [1, 2, 3, 4, 10], [255, 255, 255, 255, 252]] {
        let script = script_for(bytes);
        let mut bench = Bench::new(script.clone(), true);
        assert_eq!(bench.decode(), decode_script(&script, true));
        assert_eq!(bench.mode, LineMode::Output);
    }
}

#[test]
fn sensor_that_falls_silent_after_the_frame_ends_by_timeout() {
    let decoder = decode_script(&script_for([65, 0, 25, 0, 90]), true);
    assert!(decoder.timed_out());
    assert_eq!(decoder.transition_count(), 84);
    assert!(decoder.outcome().unwrap().is_ok());
}

#[test]
fn timeout_right_after_the_last_bit_still_yields_the_frame() {
    let mut script = script_for([65, 0, 25, 0, 90]);
    script.truncate(script.len() - 12);
    let decoder = decode_script(&script, false);
    assert!(decoder.timed_out());
    assert_eq!(decoder.transition_count(), 83);
    assert_eq!(decoder.bit_count(), 40);
    assert_eq!(decoder.outcome().unwrap().unwrap().bytes(), [65, 0, 25, 0, 90]);
}

#[test]
fn timeout_before_the_last_bit_fails() {
    let script = script_for_bits([65, 0, 25, 0, 90], 39);
    let decoder = decode_script(&script, true);
    assert!(decoder.timed_out());
    assert_eq!(decoder.transition_count(), 82);
    assert_eq!(decoder.bit_count(), 39);
    assert_eq!(decoder.outcome(), Some(Err(DecodeError::Timeout)));
    assert_eq!(decoder.line_mode(), LineMode::Output);
}

#[test]
fn timeout_mid_capture_fails_whatever_was_packed() {
    for bits in [0, 1, 8, 20, 39] {
        let script = script_for_bits([65, 0, 25, 0, 90], bits);
        let mut bench = Bench::new(script, true);
        let decoder = bench.decode();
        assert_eq!(decoder.outcome(), Some(Err(DecodeError::Timeout)));
        assert_eq!(decoder.bit_count() as usize, bits);
        assert!(decoder.bit_count() < 40);
        assert_eq!(bench.mode, LineMode::Output);
    }
}

#[test]
fn timeout_in_the_preamble_fails_with_no_bits() {
    let mut script = Vec::new();
    let mut level = true;
    push_transition(&mut script, &mut level, 10);
    push_transition(&mut script, &mut level, 10);
    let decoder = decode_script(&script, true);
    assert_eq!(decoder.outcome(), Some(Err(DecodeError::Timeout)));
    assert_eq!(decoder.transition_count(), 2);
    assert_eq!(decoder.bit_count(), 0);
}

#[test]
fn line_that_never_rests_is_read_for_the_maximum_of_transitions() {
    let mut script = script_for([65, 0, 25, 0, 90]);
    let mut level = true;
    for _ in 0..10 {
        push_transition(&mut script, &mut level, 30);
    }
    let mut bench = Bench::new(script, true);
    let decoder = bench.decode();
    assert!(!decoder.timed_out());
    assert_eq!(decoder.transition_count(), 85);
    assert_eq!(decoder.bit_count(), 40);
    assert_eq!(decoder.outcome().unwrap().unwrap().bytes(), [65, 0, 25, 0, 90]);
    assert_eq!(bench.mode, LineMode::Output);
}

#[test]
fn duration_at_the_threshold_is_a_zero_and_above_it_a_one() {
    let mut script = Vec::new();
    let mut level = true;
    for _ in 0..4 {
        push_transition(&mut script, &mut level, 10);
    }
    for index in 0..40 {
        push_transition(&mut script, &mut level, if index % 2 == 0 { 23 } else { 22 });
        push_transition(&mut script, &mut level, 254);
    }
    let decoder = decode_script(&script, true);
    assert_eq!(decoder.bit_count(), 40);
    assert_eq!(decoder.outcome(), Some(Err(DecodeError::Checksum)));
    let mut buffer = [0u8; 5];
    buffer.copy_from_slice(&[0xAA, 0xAA, 0xAA, 0xAA, 0xA8]);
    let mut fixed = script.clone();
    let tail = fixed.len() - (22 + 2 + 254 + 2) - (23 + 2 + 254 + 2) - (22 + 2 + 254 + 2);
    fixed.truncate(tail);
    let mut level = true;
    push_transition(&mut fixed, &mut level, 12);
    push_transition(&mut fixed, &mut level, 10);
    push_transition(&mut fixed, &mut level, 12);
    push_transition(&mut fixed, &mut level, 10);
    push_transition(&mut fixed, &mut level, 12);
    push_transition(&mut fixed, &mut level, 10);
    let decoder = decode_script(&fixed, true);
    assert_eq!(decoder.outcome().unwrap().unwrap().bytes(), buffer);
}

#[test]
fn wait_of_254_ticks_is_no_timeout_and_255_is() {
    let mut script = Vec::new();
    let mut level = true;
    push_transition(&mut script, &mut level, 254);
    let decoder = decode_script(&script, false);
    assert_eq!(decoder.transition_count(), 1);
    let mut script = Vec::new();
    let mut level = true;
    push_transition(&mut script, &mut level, 255);
    let decoder = decode_script(&script, false);
    assert_eq!(decoder.transition_count(), 0);
    assert!(decoder.timed_out());
}

#[test]
fn level_after_a_wait_is_what_the_next_wait_compares_against() {
    // The line drops, then is high again when the wait settles: the next
    // wait looks for a level other than high, so the three high samples
    // that follow are three ticks of one wait and no level change.
    let mut script = vec![true, true, false, true];
    script.extend([true, true, true, false, false]);
    let decoder = decode_script(&script, false);
    assert_eq!(decoder.transition_count(), 2);
    assert!(decoder.timed_out());
}

#[test]
fn report_that_does_not_answer_is_ignored() {
    let mut decoder = Decoder::new();
    let before = decoder;
    assert_eq!(decoder.step(Event::Level(true)), Action::DriveHigh);
    assert_eq!(decoder, before);
    assert_eq!(decoder.step(Event::Done), Action::DelayMillis(250));
    for _ in 0..6 {
        decoder.step(Event::Done);
    }
    assert_eq!(decoder.pending(), Action::Sample);
    let listening = decoder;
    assert_eq!(decoder.step(Event::Done), Action::Sample);
    assert_eq!(decoder, listening);
    assert_eq!(decoder.line_mode(), LineMode::Input);
}

#[test]
fn finished_decoder_stays_finished() {
    let mut decoder = decode_script(&[], true);
    let outcome = decoder.outcome();
    assert_eq!(decoder.step(Event::Done), Action::Finish);
    assert_eq!(decoder.step(Event::Level(false)), Action::Finish);
    assert!(decoder.is_finished());
    assert_eq!(decoder.outcome(), outcome);
    assert_eq!(decoder.line_mode(), LineMode::Output);
}

#[test]
fn every_action_fits_the_mode_of_the_line() {
    let mut bench = Bench::new(script_for([65, 0, 25, 0, 90]), true);
    bench.decode();
    let mut mode = LineMode::Output;
    for action in &bench.log {
        mode = mode.perform(*action).unwrap();
    }
    assert_eq!(mode, LineMode::Output);
    let listens = bench.log.iter().filter(|action| **action == Action::Listen).count();
    let reclaims = bench.log.iter().filter(|action| **action == Action::Reclaim).count();
    assert_eq!((listens, reclaims), (1, 1));
}

#[test]
fn line_mode_admits_only_fitting_actions() {
    assert_eq!(LineMode::Output.perform(Action::DriveHigh), Some(LineMode::Output));
    assert_eq!(LineMode::Output.perform(Action::DriveLow), Some(LineMode::Output));
    assert_eq!(LineMode::Output.perform(Action::Listen), Some(LineMode::Input));
    assert_eq!(LineMode::Output.perform(Action::Sample), None);
    assert_eq!(LineMode::Output.perform(Action::Reclaim), None);
    assert_eq!(LineMode::Input.perform(Action::Sample), Some(LineMode::Input));
    assert_eq!(LineMode::Input.perform(Action::Reclaim), Some(LineMode::Output));
    assert_eq!(LineMode::Input.perform(Action::DriveHigh), None);
    assert_eq!(LineMode::Input.perform(Action::DriveLow), None);
    assert_eq!(LineMode::Input.perform(Action::Listen), None);
    assert_eq!(LineMode::Input.perform(Action::DelayMicros(1)), Some(LineMode::Input));
    assert_eq!(LineMode::Output.perform(Action::DelayMillis(250)), Some(LineMode::Output));
    assert_eq!(LineMode::Input.perform(Action::Finish), Some(LineMode::Input));
}

#[test]
fn decode_ends_within_its_bound_of_reports() {
    let bound = 85 * (2 * 255 + 2) + 8;
    assert_eq!(MAX_REPORTS as usize, bound);
    for script in [Vec::new(), script_for([65, 0, 25, 0, 90]), vec![false; 30000]] {
        for idle in [true, false] {
            let mut bench = Bench::new(script.clone(), idle);
            bench.decode();
            assert!(bench.log.len() <= bound);
        }
    }
}
