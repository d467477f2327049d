//! A single-voice sine synthesiser: a melody of notes with musical lengths, the
//! note that sounds at a given time, and an oscillator that turns a running
//! sample clock into the phase of the waveform.

mod melody;
mod note;
mod oscillator;

pub use melody::{
    active_note, current_beat, lemma_notes_ended_bound, lemma_single_note_sounds_throughout,
    melody_pitch, note_end, notes_ended, Melody,
};
pub use note::{length_divisions, Note, ToneLength, BEAT_DIVISIONS, PITCH_SCALE};
pub use oscillator::{
    clock_after, clock_step, lemma_clock_after, lemma_clock_returns_to_zero,
    lemma_identical_states_agree, sample_next, sample_output, tone_phase, Phase,
    SampleRequestOptions, A_IN_HZ, CLOCK_STEPS_PER_SECOND, TEMPO_BPM,
};
