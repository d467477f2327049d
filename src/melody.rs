use vstd::prelude::*;

use crate::note::{length_divisions, Note, BEAT_DIVISIONS};

verus! {

/// Sum of the lengths, in beat subdivisions, of the first `n` notes: the
/// position at which note `n - 1` ends and note `n` begins.
pub open spec fn note_end(notes: Seq<Note>, n: nat) -> nat
    decreases n,
{
    if n == 0 {
        0
    } else {
        note_end(notes, (n - 1) as nat) + length_divisions(notes[n - 1].length)
    }
}

/// How many of the first `n` notes have ended at `position` (in beat
/// subdivisions). A note that ends exactly at `position` counts as ended.
pub open spec fn notes_ended(notes: Seq<Note>, position: nat, n: nat) -> nat
    decreases n,
{
    if n == 0 {
        0
    } else {
        notes_ended(notes, position, (n - 1) as nat) + if note_end(notes, n) <= position {
            1nat
        } else {
            0nat
        }
    }
}

/// Index of the note that sounds at `position`: the first note that has not
/// ended yet, or the last note once the whole melody has ended.
pub open spec fn active_note(notes: Seq<Note>, position: nat) -> int {
    let k = notes_ended(notes, position, notes.len());
    if k < notes.len() {
        k as int
    } else {
        notes.len() - 1
    }
}

/// Number of whole beats that have passed after `seconds` at `bpm` beats per minute.
pub open spec fn current_beat(seconds: nat, bpm: nat) -> nat {
    seconds * bpm / 60
}

/// Pitch of `notes` that sounds `seconds` after the start at `bpm` beats per minute.
pub open spec fn melody_pitch(notes: Seq<Note>, seconds: nat, bpm: nat) -> u32 {
    notes[active_note(notes, current_beat(seconds, bpm) * BEAT_DIVISIONS as nat)].pitch_relative_to_a
}

/// Not more notes end than there are.
pub proof fn lemma_notes_ended_bound(notes: Seq<Note>, position: nat, n: nat)
    ensures
        notes_ended(notes, position, n) <= n,
    decreases n,
{
    if n > 0 {
        lemma_notes_ended_bound(notes, position, (n - 1) as nat);
    }
}

/// An ordered, non-empty sequence of notes, played one after another.
#[derive(Debug, Clone)]
pub struct Melody {
    pub melody: Vec<Note>,
}

impl Melody {
    /// A melody has at least one note.
    pub open spec fn wf(&self) -> bool {
        self.melody@.len() > 0
    }

    /// Pitch that sounds `seconds` after the start at `bpm` beats per minute.
    pub open spec fn spec_pitch_at(&self, seconds: nat, bpm: nat) -> u32 {
        melody_pitch(self.melody@, seconds, bpm)
    }

    /// Pitch of the note that sounds `time` seconds after the start, at `bpm`
    /// beats per minute. Only whole beats count: the position is the number of
    /// whole beats that have passed. A note that has just ended gives way to
    /// the next one, and after the last note has ended the last note holds.
    pub fn pitch_at(&self, time: u64, bpm: u8) -> (r: u32)
        requires
            self.wf(),
        ensures
            r == self.spec_pitch_at(time as nat, bpm as nat),
    {
        proof {
            assert(time as nat * bpm as nat <= 0xffff_ffff_ffff_ffffnat * 255) by (nonlinear_arith)
                requires
                    time <= 0xffff_ffff_ffff_ffffu64,
                    bpm <= 255u8,
            ;
        }
        let beat: u128 = time as u128 * bpm as u128 / 60;
        assert(beat <= time as nat * bpm as nat) by (nonlinear_arith)
            requires
                beat == time as nat * bpm as nat / 60,
        ;
        assert(beat <= 0xffff_ffff_ffff_ffffnat * 255);
        assert(BEAT_DIVISIONS as u128 == 80);
        let position: u128 = beat * BEAT_DIVISIONS as u128;
        let ended = self.beat_to_note(position);
        proof {
            lemma_notes_ended_bound(self.melody@, position as nat, self.melody@.len());
        }
        let index: usize = if ended < self.melody.len() {
            ended
        } else {
            self.melody.len() - 1
        };
        self.melody[index].pitch_relative_to_a
    }

    /// Number of notes that have ended at `position` (in beat subdivisions).
    fn beat_to_note(&self, position: u128) -> (r: usize)
        ensures
            r as nat == notes_ended(self.melody@, position as nat, self.melody@.len()),
    {
        let mut i: usize = 0;
        let mut end: u128 = 0;
        let mut ended: usize = 0;
        while i < self.melody.len()
            invariant
                i <= self.melody@.len(),
                end as nat == note_end(self.melody@, i as nat),
                end <= 480 * i,
                ended as nat == notes_ended(self.melody@, position as nat, i as nat),
                ended <= i,
            decreases self.melody@.len() - i,
        {
            let length = self.melody[i].beats();
            end = end + length as u128;
            if end <= position {
                ended = ended + 1;
            }
            i = i + 1;
        }
        ended
    }
}

/// A melody of a single note sounds that note at every moment and tempo.
pub proof fn lemma_single_note_sounds_throughout(m: Melody, seconds: nat, bpm: nat)
    requires
        m.melody@.len() == 1,
        bpm > 0,
    ensures
        m.spec_pitch_at(seconds, bpm) == m.melody@[0].pitch_relative_to_a,
{
    let position = current_beat(seconds, bpm) * BEAT_DIVISIONS as nat;
    lemma_notes_ended_bound(m.melody@, position, 1);
}

} // verus!
