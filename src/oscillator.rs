use vstd::prelude::*;

use vstd::arithmetic::div_mod::{lemma_add_mod_noop, lemma_small_mod};

use crate::melody::{melody_pitch, Melody};
use crate::note::{Note, PITCH_SCALE};

verus! {

/// Frequency of the reference tone A, in Hz.
pub const A_IN_HZ: u32 = 440;

/// Number of sample clock steps that count as one second of the melody.
///
/// The sample clock wraps once per second of audio, so it cannot give the
/// true time; the melody is instead advanced by one second for every
/// thousand samples within the current wrap window.
pub const CLOCK_STEPS_PER_SECOND: u32 = 1000;

/// The fixed tempo at which the oscillator plays its melody, in beats per minute.
pub const TEMPO_BPM: u8 = 2;

/// A position within one period of the sine wave: `cycles / per` of a full
/// turn, with `cycles < per`. The sample value is `sin(2 * pi * cycles / per)`.
#[derive(Debug, Clone, Copy, PartialEq, Eq, Structural)]
pub struct Phase {
    pub cycles: u64,
    pub per: u64,
}

/// Phase of the waveform at sample clock `clock`: the argument of the sine,
/// `clock * pitch * A_IN_HZ / rate` turns with `pitch` the ratio of the
/// sounding note, reduced to its fraction of a turn.
pub open spec fn tone_phase(clock: nat, notes: Seq<Note>, rate: nat) -> Phase {
    let pitch = melody_pitch(notes, clock / CLOCK_STEPS_PER_SECOND as nat, TEMPO_BPM as nat);
    let per = rate * PITCH_SCALE as nat;
    Phase { cycles: ((clock * pitch as nat * A_IN_HZ as nat) % per) as u64, per: per as u64 }
}

/// One step of the sample clock, which wraps every `rate` steps.
pub open spec fn clock_step(clock: nat, rate: nat) -> nat {
    (clock + 1) % rate
}

/// The sample clock after `n` steps from `clock`.
pub open spec fn clock_after(clock: nat, rate: nat, n: nat) -> nat
    decreases n,
{
    if n == 0 {
        clock
    } else {
        clock_step(clock_after(clock, rate, (n - 1) as nat), rate)
    }
}

/// Phase produced by the `n`-th sample (counting from one) of a state whose
/// clock stood at `clock`.
pub open spec fn sample_output(clock: nat, notes: Seq<Note>, rate: nat, n: nat) -> Phase {
    tone_phase(clock_after(clock, rate, n), notes, rate)
}

/// The per-stream state of the sine oscillator.
pub struct SampleRequestOptions {
    pub sample_rate: u32,
    pub sample_clock: u32,
    pub nchannels: usize,
    pub note: Note,
    pub melody: Melody,
}

impl SampleRequestOptions {
    /// The clock lies within its wrap window and the melody is not empty.
    pub open spec fn wf(&self) -> bool {
        &&& self.sample_rate > 0
        &&& self.sample_clock < self.sample_rate
        &&& self.melody.wf()
    }

    /// State of a freshly opened stream, with the clock at zero.
    pub fn new(sample_rate: u32, nchannels: usize, note: Note, melody: Melody) -> (r: Self)
        requires
            sample_rate > 0,
            melody.wf(),
        ensures
            r.wf(),
            r.sample_rate == sample_rate,
            r.sample_clock == 0,
            r.nchannels == nchannels,
            r.note == note,
            r.melody == melody,
    {
        SampleRequestOptions { sample_rate, sample_clock: 0, nchannels, note, melody }
    }

    /// Phase of the waveform at the current sample clock.
    pub fn tone(&self) -> (r: Phase)
        requires
            self.wf(),
        ensures
            r == tone_phase(self.sample_clock as nat, self.melody.melody@, self.sample_rate as nat),
            r.cycles < r.per,
    {
        let seconds: u64 = (self.sample_clock / CLOCK_STEPS_PER_SECOND) as u64;
        let pitch = self.melody.pitch_at(seconds, TEMPO_BPM);
        proof {
            assert(self.sample_clock as nat * pitch as nat <= 0xffff_ffffnat * 0xffff_ffffnat)
                by (nonlinear_arith)
                requires
                    self.sample_clock <= 0xffff_ffffu32,
                    pitch <= 0xffff_ffffu32,
            ;
        }
        let turns: u128 = self.sample_clock as u128 * pitch as u128 * A_IN_HZ as u128;
        assert(PITCH_SCALE as u64 == 1000);
        let per: u64 = self.sample_rate as u64 * PITCH_SCALE as u64;
        let cycles: u128 = turns % (per as u128);
        Phase { cycles: cycles as u64, per }
    }

    /// Advance the sample clock by one, wrapping at the sample rate.
    ///
    /// The clock counts samples within the current second of audio, not the
    /// phase of the oscillator: it resets once per second, and with it the
    /// time base of the waveform, which may jump there.
    pub fn tick(&mut self)
        requires
            old(self).wf(),
        ensures
            final(self).wf(),
            final(self).sample_clock as nat == clock_step(
                old(self).sample_clock as nat,
                old(self).sample_rate as nat,
            ),
            final(self).sample_rate == old(self).sample_rate,
            final(self).nchannels == old(self).nchannels,
            final(self).note == old(self).note,
            final(self).melody == old(self).melody,
    {
        self.sample_clock = (self.sample_clock + 1) % self.sample_rate;
    }
}

/// Produce the next sample: advance the clock, then take the phase there.
pub fn sample_next(o: &mut SampleRequestOptions) -> (r: Phase)
    requires
        old(o).wf(),
    ensures
        final(o).wf(),
        final(o).sample_clock as nat == clock_step(
            old(o).sample_clock as nat,
            old(o).sample_rate as nat,
        ),
        final(o).sample_rate == old(o).sample_rate,
        final(o).nchannels == old(o).nchannels,
        final(o).note == old(o).note,
        final(o).melody == old(o).melody,
        r == tone_phase(final(o).sample_clock as nat, final(o).melody.melody@, final(o).sample_rate as nat),
        r == sample_output(old(o).sample_clock as nat, old(o).melody.melody@, old(o).sample_rate as nat, 1),
{
    o.tick();
    assert(clock_after(old(o).sample_clock as nat, old(o).sample_rate as nat, 1) == clock_step(
        clock_after(old(o).sample_clock as nat, old(o).sample_rate as nat, 0),
        old(o).sample_rate as nat,
    ));
    o.tone()
}

/// Within its window, `n` steps of the clock add `n` modulo the rate.
pub proof fn lemma_clock_after(clock: nat, rate: nat, n: nat)
    requires
        rate > 0,
        clock < rate,
    ensures
        clock_after(clock, rate, n) == (clock + n) % rate,
    decreases n,
{
    if n == 0 {
        lemma_small_mod(clock, rate);
    } else {
        lemma_clock_after(clock, rate, (n - 1) as nat);
        let prev = (clock + n - 1) as nat;
        if rate == 1 {
            assert((clock_after(clock, rate, (n - 1) as nat) + 1) % 1 == 0);
            assert((clock + n) % 1 == 0);
        } else {
            lemma_small_mod(1, rate);
            lemma_add_mod_noop(prev as int, 1, rate as int);
        }
    }
}

/// Starting from zero, the sample clock is back at zero after exactly
/// `rate` steps: it wraps once per second of audio.
pub proof fn lemma_clock_returns_to_zero(rate: nat)
    requires
        rate > 0,
    ensures
        clock_after(0, rate, rate) == 0,
{
    lemma_clock_after(0, rate, rate);
    assert(rate % rate == 0) by (nonlinear_arith)
        requires
            rate > 0,
    ;
}

/// Two oscillator states with the same sample rate, clock and melody give
/// the same phase for every sample of the same sequence of calls: nothing but
/// these fields decides the output.
pub proof fn lemma_identical_states_agree(a: SampleRequestOptions, b: SampleRequestOptions, n: nat)
    requires
        a.wf(),
        b.wf(),
        a.sample_rate == b.sample_rate,
        a.sample_clock == b.sample_clock,
        a.melody.melody@ == b.melody.melody@,
    ensures
        sample_output(a.sample_clock as nat, a.melody.melody@, a.sample_rate as nat, n)
            == sample_output(b.sample_clock as nat, b.melody.melody@, b.sample_rate as nat, n),
{
}

} // verus!
