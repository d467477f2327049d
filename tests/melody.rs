use melody_synth::{Melody, Note, ToneLength, BEAT_DIVISIONS, PITCH_SCALE};

fn pitch(ratio: f32) -> u32 {
    (ratio * PITCH_SCALE as f32).round() as u32
}

fn note(ratio: f32, length: ToneLength) -> Note {
    Note {
        pitch_relative_to_a: pitch(ratio),
        length,
    }
}

#[test]
fn get_tone_first_tone_of_melody() {
    let my_melody = Melody {
        melody: vec![note(1.0, ToneLength::Full)],
    };
    assert_eq!(my_melody.pitch_at(0, 1), pitch(1.0));
}

#[test]
fn get_tone_second_tone_of_melody() {
    let my_melody = Melody {
        melody: vec![note(1.0, ToneLength::Full), note(2.0, ToneLength::Full)],
    };
    assert_eq!(my_melody.pitch_at(61, 1), pitch(2.0));
}

#[test]
fn get_tone_first_tone_of_daa_da_melody() {
    let my_melody = Melody {
        melody: vec![note(1.0, ToneLength::Two), note(2.0, ToneLength::Full)],
    };
    assert_eq!(my_melody.pitch_at(61, 1), pitch(1.0));
}

#[test]
fn two_full_notes_start_on_the_first() {
    let my_melody = Melody {
        melody: vec![note(1.0, ToneLength::Full), note(2.0, ToneLength::Full)],
    };
    assert_eq!(my_melody.pitch_at(0, 1), pitch(1.0));
    assert_eq!(my_melody.pitch_at(59, 1), pitch(1.0));
}

#[test]
fn boundary_reached_advances_to_next_note() {
    let my_melody = Melody {
        melody: vec![note(1.0, ToneLength::Full), note(2.0, ToneLength::Full)],
    };
    // Exactly one beat at 60 seconds and 1 bpm: the first note has ended.
    assert_eq!(my_melody.pitch_at(60, 1), pitch(2.0));
}

#[test]
fn single_note_sounds_at_every_time_and_tempo() {
    let my_melody = Melody {
        melody: vec![note(1.2, ToneLength::Full)],
    };
    for t in [0u64, 1, 59, 60, 61, 3600, 1_000_000, u64::MAX] {
        for bpm in [1u8, 2, 60, 120, 255] {
            assert_eq!(my_melody.pitch_at(t, bpm), 1200);
        }
    }
}

#[test]
fn past_the_end_the_last_note_holds() {
    let my_melody = Melody {
        melody: vec![
            note(1.0, ToneLength::Half),
            note(1.5, ToneLength::Quarter),
            note(3.0, ToneLength::Octet),
        ],
    };
    assert_eq!(my_melody.pitch_at(u64::MAX, 255), pitch(3.0));
    assert_eq!(my_melody.pitch_at(600, 1), pitch(3.0));
}

#[test]
fn short_notes_are_passed_within_one_beat() {
    // Half + Quarter + QuarterDot end at 0.5, 0.75 and 1.0125 beats.
    let my_melody = Melody {
        melody: vec![
            note(1.0, ToneLength::Half),
            note(1.25, ToneLength::Quarter),
            note(1.5, ToneLength::QuarterDot),
            note(2.0, ToneLength::Full),
        ],
    };
    assert_eq!(my_melody.pitch_at(0, 60), pitch(1.0));
    // One whole beat: the first two notes have ended, the third has not.
    assert_eq!(my_melody.pitch_at(1, 60), pitch(1.5));
    // Two whole beats: the third has ended too.
    assert_eq!(my_melody.pitch_at(2, 60), pitch(2.0));
}

#[test]
fn tempo_scales_the_position() {
    let my_melody = Melody {
        melody: vec![
            note(1.0, ToneLength::Four),
            note(2.0, ToneLength::FourDot),
            note(3.0, ToneLength::TwoDot),
        ],
    };
    // 119 s at 2 bpm is 3 whole beats; 120 s is 4.
    assert_eq!(my_melody.pitch_at(119, 2), pitch(1.0));
    assert_eq!(my_melody.pitch_at(120, 2), pitch(2.0));
    // 10 beats end the second note.
    assert_eq!(my_melody.pitch_at(10, 60), pitch(3.0));
}

#[test]
fn dotted_lengths_are_exact() {
    let beats = |l: ToneLength| note(1.0, l).beats() as f64 / BEAT_DIVISIONS as f64;
    assert!((beats(ToneLength::FullDot) - 1.5).abs() < 1e-9);
    assert!((beats(ToneLength::QuarterDot) - 0.2625).abs() < 1e-9);
    assert!((beats(ToneLength::Octet) - 0.0125).abs() < 1e-9);
    assert_eq!(note(1.0, ToneLength::FullDot).beats(), 120);
    assert_eq!(note(1.0, ToneLength::QuarterDot).beats(), 21);
    assert_eq!(note(1.0, ToneLength::Octet).beats(), 1);
}

#[test]
fn every_length_in_beats() {
    let table = [
        (ToneLength::Four, 4.0),
        (ToneLength::FourDot, 6.0),
        (ToneLength::Two, 2.0),
        (ToneLength::TwoDot, 3.0),
        (ToneLength::Full, 1.0),
        (ToneLength::FullDot, 1.5),
        (ToneLength::Half, 0.5),
        (ToneLength::HalfDot, 0.75),
        (ToneLength::Quarter, 0.25),
        (ToneLength::QuarterDot, 0.2625),
        (ToneLength::Octet, 0.0125),
    ];
    for (length, expected) in table {
        let got = note(1.0, length).beats() as f64 / BEAT_DIVISIONS as f64;
        assert!((got - expected).abs() < 1e-9);
    }
}
