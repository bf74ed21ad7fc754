//! The game's tune: note names and their pitches, the melody and bass
//! line, and the sequencer that walks through them sample by sample.
use crate::text::chars_of;
use vstd::prelude::*;

verus! {

broadcast use vstd::string::group_string_axioms;

/// Frequencies of the 88 piano keys from A0 to C8, in hundredths of a hertz.
pub const KEY_CENTIHERTZ: [u32; 88] = [
    2750, 2914, 3087, 3270, 3465, 3671, 3889, 4120, 4365, 4625,
    4900, 5191, 5500, 5827, 6174, 6541, 6930, 7342, 7778, 8241,
    8731, 9250, 9800, 10383, 11000, 11654, 12347, 13081, 13859, 14683,
    15556, 16481, 17461, 18500, 19600, 20765, 22000, 23308, 24694, 26163,
    27718, 29366, 31113, 32963, 34923, 36999, 39200, 41530, 44000, 46616,
    49388, 52325, 55437, 58733, 62225, 65926, 69846, 73999, 78399, 83061,
    88000, 93233, 98777, 104650, 110873, 117466, 124451, 131851, 139691, 147998,
    156798, 166122, 176000, 186466, 197553, 209300, 221746, 234932, 248902, 263702,
    279383, 295996, 313596, 332244, 352000, 372931, 395107, 418601,
];

/// The notes of the melody; the empty name is a rest.
pub const MELODY_NOTES: [&'static str; 124] = [
    "B\u{266d}4", "G4", "D4", "B\u{266d}3", "C4", "C#4", "C5", "C5", "A#4", "C5",
    "A#4", "G4", "E\u{266d}4", "C4", "", "G#3", "G#3", "G#3", "C4", "E\u{266d}4",
    "B\u{266d}4", "B\u{266d}4", "B\u{266d}4", "G#4", "B\u{266d}4", "G#4", "G4", "G#4", "B\u{266d}4", "E\u{266d}4",
    "F4", "G4", "G#4", "C4", "E\u{266d}4", "D4", "G4", "C5", "A4", "A4",
    "B\u{266d}4", "G4", "D4", "B\u{266d}3", "C4", "C#4", "C5", "C5", "A#4", "C5",
    "A#4", "G4", "E\u{266d}4", "C4", "G#3", "G#3", "G#3", "C4", "E\u{266d}4", "B\u{266d}4",
    "B\u{266d}4", "B\u{266d}4", "G#4", "B\u{266d}4", "G#4", "G4", "G#4", "B\u{266d}4", "E\u{266d}4", "F4",
    "G4", "G#4", "C4", "E\u{266d}4", "D4", "E\u{266d}4", "F4", "E\u{266d}4", "", "E\u{266d}4",
    "F4", "G4", "B\u{266d}4", "C5", "C#5", "C#5", "C#5", "C#5", "C#5", "E\u{266d}5",
    "E5", "E\u{266d}5", "C#5", "C5", "C5", "E\u{266d}4", "C5", "", "E\u{266d}4", "F4",
    "G4", "B\u{266d}4", "C5", "D5", "D5", "D5", "D5", "D5", "D5", "D5",
    "C#5", "D5", "F5", "D5", "C5", "B\u{266d}4", "B\u{266d}4", "G#4", "G4", "G#4",
    "G4", "F4", "B\u{266d}4", "",
];

/// How long each melody note lasts, in milliseconds.
pub const MELODY_MILLIS: [u64; 124] = [
    500, 500, 3000, 500, 500, 500, 500, 500, 500, 500, 500, 500,
    500, 2500, 250, 250, 250, 250, 250, 250, 500, 500, 500, 500,
    1500, 500, 1000, 500, 500, 1000, 500, 500, 500, 1000, 500, 500,
    500, 500, 4000, 3000, 500, 500, 3000, 500, 500, 500, 500, 500,
    500, 500, 500, 500, 500, 3000, 250, 250, 250, 250, 250, 500,
    500, 500, 500, 1000, 1000, 1000, 500, 500, 1000, 500, 500, 500,
    1000, 500, 500, 500, 1000, 3000, 4500, 500, 500, 500, 500, 500,
    1500, 500, 500, 2000, 500, 500, 1000, 500, 500, 1000, 500, 500,
    2000, 3000, 500, 500, 500, 500, 500, 500, 500, 500, 500, 2000,
    500, 500, 500, 500, 500, 500, 500, 1000, 1000, 1000, 1000, 1000,
    1000, 1000, 1000, 3000,
];

/// The notes of the bass line; the empty name is a rest.
pub const BASS_NOTES: [&'static str; 33] = [
    "", "E\u{266d}2", "G2", "A\u{266d}2", "B\u{266d}2", "C2", "E\u{266d}2", "G2", "A2", "F2",
    "A2", "C3", "D3", "B\u{266d}2", "D3", "F3", "G3", "E\u{266d}2", "G2", "A\u{266d}2",
    "B\u{266d}2", "C2", "E\u{266d}2", "G2", "A2", "F2", "A2", "C3", "D3", "B\u{266d}2",
    "D3", "F3", "G3",
];

/// How long each bass note lasts, in milliseconds.
pub const BASS_MILLIS: [u64; 33] = [
    1000, 1000, 1000, 1000, 1000, 1000, 1000, 1000, 1000, 1000, 1000, 1000,
    1000, 1000, 1000, 1000, 1000, 1000, 1000, 1000, 1000, 1000, 1000, 1000,
    1000, 1000, 1000, 1000, 1000, 1000, 1000, 1000, 1000,
];

/// The semitone of a natural note letter above C.
pub open spec fn letter_semitone(c: char) -> Option<int> {
    if c == 'C' {
        Some(0)
    } else if c == 'D' {
        Some(2)
    } else if c == 'E' {
        Some(4)
    } else if c == 'F' {
        Some(5)
    } else if c == 'G' {
        Some(7)
    } else if c == 'A' {
        Some(9)
    } else if c == 'B' {
        Some(11)
    } else {
        None
    }
}

/// The shift an accidental gives a letter, where the pitch table spells
/// that note with it: sharps on C, D, F, G and A, flats on B and E only.
pub open spec fn accidental_shift(letter: char, acc: char) -> Option<int> {
    if acc == '#' && (letter == 'C' || letter == 'D' || letter == 'F' || letter == 'G' || letter
        == 'A') {
        Some(1)
    } else if acc == '\u{266d}' && (letter == 'B' || letter == 'E') {
        Some(-1)
    } else {
        None
    }
}

/// The value of an octave digit.
pub open spec fn octave_digit(c: char) -> Option<int> {
    if '0' <= c <= '9' {
        Some(c as int - '0' as int)
    } else {
        None
    }
}

/// The piano key (0 for A0 up to 87 for C8) that a note name such as
/// `A4`, `C#5` or `B♭3` names; `None` for a rest or any other text.
pub open spec fn note_key(s: Seq<char>) -> Option<int> {
    let k = if s.len() == 2 && letter_semitone(s[0]) is Some && octave_digit(s[1]) is Some {
        Some(12 * octave_digit(s[1])->0 + letter_semitone(s[0])->0 - 9)
    } else if s.len() == 3 && letter_semitone(s[0]) is Some && accidental_shift(s[0], s[1]) is Some
        && octave_digit(s[2]) is Some {
        Some(
            12 * octave_digit(s[2])->0 + letter_semitone(s[0])->0 + accidental_shift(s[0], s[1])->0
                - 9,
        )
    } else {
        None
    };
    match k {
        Some(key) => if 0 <= key < 88 {
            Some(key)
        } else {
            None
        },
        None => None,
    }
}

/// The pitch of a note name in hundredths of a hertz; 0, silence, for a
/// rest or a name the pitch table does not hold.
pub open spec fn note_centihertz_spec(s: Seq<char>) -> u32 {
    match note_key(s) {
        Some(k) => KEY_CENTIHERTZ@[k],
        None => 0,
    }
}

fn letter_of(c: char) -> (r: Option<i32>)
    ensures
        r is Some <==> letter_semitone(c) is Some,
        r is Some ==> r->0 == letter_semitone(c)->0,
{
    if c == 'C' {
        Some(0)
    } else if c == 'D' {
        Some(2)
    } else if c == 'E' {
        Some(4)
    } else if c == 'F' {
        Some(5)
    } else if c == 'G' {
        Some(7)
    } else if c == 'A' {
        Some(9)
    } else if c == 'B' {
        Some(11)
    } else {
        None
    }
}

fn accidental_of(letter: char, acc: char) -> (r: Option<i32>)
    ensures
        r is Some <==> accidental_shift(letter, acc) is Some,
        r is Some ==> r->0 == accidental_shift(letter, acc)->0,
{
    if acc == '#' && (letter == 'C' || letter == 'D' || letter == 'F' || letter == 'G' || letter
        == 'A') {
        Some(1)
    } else if acc == '\u{266d}' && (letter == 'B' || letter == 'E') {
        Some(-1)
    } else {
        None
    }
}

fn octave_of(c: char) -> (r: Option<i32>)
    ensures
        r is Some <==> octave_digit(c) is Some,
        r is Some ==> r->0 == octave_digit(c)->0,
{
    if '0' <= c && c <= '9' {
        Some((c as u32 - '0' as u32) as i32)
    } else {
        None
    }
}

/// The piano key a note name names, if any.
pub fn key_of_note(note: &str) -> (r: Option<usize>)
    ensures
        r is Some <==> note_key(note@) is Some,
        r is Some ==> r->0 == note_key(note@)->0,
{
    let v = chars_of(note);
    let key: i32 = if v.len() == 2 {
        match (letter_of(v[0]), octave_of(v[1])) {
            (Some(l), Some(o)) => 12 * o + l - 9,
            _ => return None,
        }
    } else if v.len() == 3 {
        match (letter_of(v[0]), accidental_of(v[0], v[1]), octave_of(v[2])) {
            (Some(l), Some(a), Some(o)) => 12 * o + l + a - 9,
            _ => return None,
        }
    } else {
        return None;
    };
    if 0 <= key && key < 88 {
        Some(key as usize)
    } else {
        None
    }
}

/// The pitch of a note name in hundredths of a hertz (every pitch in the
/// table has two decimals, so this is exact); 0 for a rest or an unknown
/// name.
pub fn note_centihertz(note: &str) -> (r: u32)
    ensures
        r == note_centihertz_spec(note@),
{
    match key_of_note(note) {
        Some(k) => KEY_CENTIHERTZ[k],
        None => 0,
    }
}

/// How many samples a note of `millis` milliseconds lasts at
/// `sample_rate` samples a second, rounded down.
pub open spec fn duration_samples(millis: u64, sample_rate: u64) -> int {
    (millis * sample_rate) / 1000
}

/// What one output sample plays: the pitches of the current melody and
/// bass notes, and the running sample number that the waveforms are
/// computed from.
#[derive(Debug, Clone, Copy, PartialEq, Eq, Structural)]
pub struct Frame {
    pub melody_centihertz: u32,
    pub bass_centihertz: u32,
    pub sample: u64,
}

/// Where playback stands in the melody and the bass line: the current
/// note of each, how many samples of it have been played, and how many
/// samples have been played in all.
#[derive(Debug, Clone, Copy, PartialEq, Eq, Structural)]
pub struct Sequencer {
    pub melody_index: usize,
    pub bass_index: usize,
    pub melody_counter: i32,
    pub bass_counter: i32,
    pub sample_counter: u64,
}

impl Sequencer {
    /// The note indices are in range and the counters are not negative.
    pub open spec fn wf(&self) -> bool {
        &&& self.melody_index < 124
        &&& self.bass_index < 33
        &&& self.melody_counter >= 0
        &&& self.bass_counter >= 0
    }

    /// The state once each voice has moved on to its next note if the
    /// current one has been played for `md` (melody) or `bd` (bass) samples.
    pub open spec fn advanced(self, md: int, bd: int) -> Sequencer {
        let melody_done = self.melody_counter >= md;
        let bass_done = self.bass_counter >= bd;
        Sequencer {
            melody_index: if melody_done {
                ((self.melody_index + 1) % 124) as usize
            } else {
                self.melody_index
            },
            melody_counter: if melody_done {
                0
            } else {
                self.melody_counter
            },
            bass_index: if bass_done {
                ((self.bass_index + 1) % 33) as usize
            } else {
                self.bass_index
            },
            bass_counter: if bass_done {
                0
            } else {
                self.bass_counter
            },
            sample_counter: self.sample_counter,
        }
    }

    /// What the next sample plays.
    pub open spec fn frame_spec(self, md: int, bd: int) -> Frame {
        let a = self.advanced(md, bd);
        Frame {
            melody_centihertz: note_centihertz_spec(MELODY_NOTES@[a.melody_index as int]@),
            bass_centihertz: note_centihertz_spec(BASS_NOTES@[a.bass_index as int]@),
            sample: self.sample_counter,
        }
    }

    /// The state after one sample.
    pub open spec fn stepped(self, md: int, bd: int) -> Sequencer {
        let a = self.advanced(md, bd);
        Sequencer {
            melody_counter: (a.melody_counter + 1) as i32,
            bass_counter: (a.bass_counter + 1) as i32,
            sample_counter: (a.sample_counter + 1) as u64,
            ..a
        }
    }

    /// The state after `n` samples.
    pub open spec fn run(self, md: int, bd: int, n: nat) -> Sequencer
        decreases n,
    {
        if n == 0 {
            self
        } else {
            self.run(md, bd, (n - 1) as nat).stepped(md, bd)
        }
    }

    /// The note lengths in samples that a buffer is played with: those of
    /// the notes current when the buffer starts.
    pub open spec fn melody_duration(self, sample_rate: u64) -> int {
        duration_samples(MELODY_MILLIS@[self.melody_index as int], sample_rate)
    }

    pub open spec fn bass_duration(self, sample_rate: u64) -> int {
        duration_samples(BASS_MILLIS@[self.bass_index as int], sample_rate)
    }

    /// A buffer of `len` samples at `sample_rate` can be played from this
    /// state without an integer overflowing.
    pub open spec fn fits(self, sample_rate: u64, len: nat) -> bool {
        &&& MELODY_MILLIS@[self.melody_index as int] * sample_rate <= u64::MAX
        &&& BASS_MILLIS@[self.bass_index as int] * sample_rate <= u64::MAX
        &&& self.melody_duration(sample_rate) <= i32::MAX
        &&& self.bass_duration(sample_rate) <= i32::MAX
        &&& self.sample_counter + len <= u64::MAX
    }

    /// Decides `fits`: whether a buffer of `len` samples at `sample_rate`
    /// can be played from here without an integer overflowing.
    pub fn can_render(&self, len: usize, sample_rate: u64) -> (b: bool)
        requires
            self.wf(),
        ensures
            b == self.fits(sample_rate, len as nat),
    {
        let mm = MELODY_MILLIS[self.melody_index];
        let bm = BASS_MILLIS[self.bass_index];
        if mm != 0 && sample_rate > u64::MAX / mm {
            assert(mm * sample_rate > u64::MAX) by (nonlinear_arith)
                requires
                    mm != 0,
                    sample_rate > u64::MAX / mm;
            return false;
        }
        if bm != 0 && sample_rate > u64::MAX / bm {
            assert(bm * sample_rate > u64::MAX) by (nonlinear_arith)
                requires
                    bm != 0,
                    sample_rate > u64::MAX / bm;
            return false;
        }
        proof {
            if mm != 0 {
                assert(mm * (u64::MAX / mm) <= u64::MAX) by (nonlinear_arith)
                    requires mm != 0;
                assert(mm * sample_rate <= mm * (u64::MAX / mm)) by (nonlinear_arith)
                    requires sample_rate <= u64::MAX / mm;
            }
            if bm != 0 {
                assert(bm * (u64::MAX / bm) <= u64::MAX) by (nonlinear_arith)
                    requires bm != 0;
                assert(bm * sample_rate <= bm * (u64::MAX / bm)) by (nonlinear_arith)
                    requires sample_rate <= u64::MAX / bm;
            }
        }
        let md = mm * sample_rate / 1000;
        let bd = bm * sample_rate / 1000;
        md <= 0x7fff_ffff && bd <= 0x7fff_ffff && len as u64 <= u64::MAX - self.sample_counter
    }

    /// The start of the tune.
    pub fn new() -> (s: Sequencer)
        ensures
            s.wf(),
            s.melody_index == 0 && s.bass_index == 0,
            s.melody_counter == 0 && s.bass_counter == 0 && s.sample_counter == 0,
    {
        Sequencer {
            melody_index: 0,
            bass_index: 0,
            melody_counter: 0,
            bass_counter: 0,
            sample_counter: 0,
        }
    }

    /// Plays a buffer of `len` samples: before each sample a voice whose
    /// note has lasted its length moves on to its next note, wrapping at
    /// the end of the tune; the lengths are those of the notes current when
    /// the buffer starts.
    pub fn render(&mut self, len: usize, sample_rate: u64) -> (frames: Vec<Frame>)
        requires
            old(self).wf(),
            old(self).fits(sample_rate, len as nat),
        ensures
            final(self).wf(),
            frames@.len() == len,
            forall|i: int|
                0 <= i < len ==> #[trigger] frames@[i] == old(self).run(
                    old(self).melody_duration(sample_rate),
                    old(self).bass_duration(sample_rate),
                    i as nat,
                ).frame_spec(
                    old(self).melody_duration(sample_rate),
                    old(self).bass_duration(sample_rate),
                ),
            *final(self) == old(self).run(
                old(self).melody_duration(sample_rate),
                old(self).bass_duration(sample_rate),
                len as nat,
            ),
    {
        let md: u64 = MELODY_MILLIS[self.melody_index] * sample_rate / 1000;
        let bd: u64 = BASS_MILLIS[self.bass_index] * sample_rate / 1000;
        let ghost start = *self;
        let mut frames: Vec<Frame> = Vec::new();
        let mut i: usize = 0;
        while i < len
            invariant
                i <= len,
                frames@.len() == i,
                md == start.melody_duration(sample_rate),
                bd == start.bass_duration(sample_rate),
                md <= i32::MAX && bd <= i32::MAX,
                start.sample_counter + len <= u64::MAX,
                *self == start.run(md as int, bd as int, i as nat),
                self.wf(),
                self.sample_counter == start.sample_counter + i,
                forall|j: int|
                    0 <= j < i ==> #[trigger] frames@[j] == start.run(
                        md as int,
                        bd as int,
                        j as nat,
                    ).frame_spec(md as int, bd as int),
            decreases len - i,
        {
            let ghost before = *self;
            if self.melody_counter as u64 >= md {
                self.melody_index = (self.melody_index + 1) % 124;
                self.melody_counter = 0;
            }
            if self.bass_counter as u64 >= bd {
                self.bass_index = (self.bass_index + 1) % 33;
                self.bass_counter = 0;
            }
            assert(*self == before.advanced(md as int, bd as int));
            let frame = Frame {
                melody_centihertz: note_centihertz(MELODY_NOTES[self.melody_index]),
                bass_centihertz: note_centihertz(BASS_NOTES[self.bass_index]),
                sample: self.sample_counter,
            };
            frames.push(frame);
            self.melody_counter = self.melody_counter + 1;
            self.bass_counter = self.bass_counter + 1;
            self.sample_counter = self.sample_counter + 1;
            i = i + 1;
        }
        frames
    }
}

/// Sharps and flats that name the same key sound the same: A♯ and B♭,
/// D♯ and E♭, in every octave.
pub proof fn lemma_enharmonic_notes_agree(octave: char)
    ensures
        note_centihertz_spec(seq!['A', '#', octave]) == note_centihertz_spec(
            seq!['B', '\u{266d}', octave],
        ),
        note_centihertz_spec(seq!['D', '#', octave]) == note_centihertz_spec(
            seq!['E', '\u{266d}', octave],
        ),
{
}

/// The sequencer keeps its state in range: after any number of samples
/// the note indices are valid and the counters are not negative.
pub proof fn lemma_run_keeps_state_valid(s: Sequencer, md: int, bd: int, n: nat)
    requires
        s.wf(),
        0 <= md <= i32::MAX,
        0 <= bd <= i32::MAX,
    ensures
        s.run(md, bd, n).wf(),
    decreases n,
{
    if n > 0 {
        lemma_run_keeps_state_valid(s, md, bd, (n - 1) as nat);
    }
}

/// Each voice walks its notes in order and plays every one of them: when
/// the current note is due to end, the next index is the one after it, the
/// last note is followed by the first, no two notes are followed by the same
/// note, and the counter starts again; a note that is not due stays.
pub proof fn lemma_voices_play_every_note_in_turn(s: Sequencer, t: Sequencer, md: int, bd: int)
    requires
        s.wf(),
        t.wf(),
    ensures
        s.bass_counter >= bd ==> {
            let a = s.advanced(md, bd);
            &&& a.bass_counter == 0
            &&& a.bass_index < BASS_NOTES@.len()
            &&& s.bass_index + 1 < BASS_NOTES@.len() ==> a.bass_index == s.bass_index + 1
            &&& s.bass_index == BASS_NOTES@.len() - 1 ==> a.bass_index == 0
        },
        s.bass_counter < bd ==> s.advanced(md, bd).bass_index == s.bass_index
            && s.advanced(md, bd).bass_counter == s.bass_counter,
        s.melody_counter >= md ==> {
            let a = s.advanced(md, bd);
            &&& a.melody_counter == 0
            &&& a.melody_index < MELODY_NOTES@.len()
            &&& s.melody_index + 1 < MELODY_NOTES@.len() ==> a.melody_index == s.melody_index + 1
            &&& s.melody_index == MELODY_NOTES@.len() - 1 ==> a.melody_index == 0
        },
        s.melody_counter < md ==> s.advanced(md, bd).melody_index == s.melody_index
            && s.advanced(md, bd).melody_counter == s.melody_counter,
        (s.bass_counter >= bd && t.bass_counter >= bd && s.bass_index != t.bass_index) ==> s.advanced(
            md,
            bd,
        ).bass_index != t.advanced(md, bd).bass_index,
        (s.melody_counter >= md && t.melody_counter >= md && s.melody_index != t.melody_index)
            ==> s.advanced(md, bd).melody_index != t.advanced(md, bd).melody_index,
{
    assert(BASS_NOTES@.len() == 33);
    assert(MELODY_NOTES@.len() == 124);
}

/// The key a natural note name such as `E4` names.
pub open spec fn natural_key(letter: char, octave: char) -> Option<int> {
    note_key(seq![letter, octave])
}

/// The key a sharp note name such as `D#4` names.
pub open spec fn sharp_key(letter: char, octave: char) -> Option<int> {
    note_key(seq![letter, '#', octave])
}

/// The key a flat note name such as `E♭4` names.
pub open spec fn flat_key(letter: char, octave: char) -> Option<int> {
    note_key(seq![letter, '\u{266d}', octave])
}

/// Within each full octave the twelve notes C, C♯, D, D♯, E, F, F♯, G, G♯,
/// A, A♯, B name twelve consecutive keys, one semitone apart; E♭ is D♯ and
/// B♭ is A♯. So distinct letters name distinct keys, and a natural E lies
/// between D♯ and F.
pub proof fn lemma_octave_is_chromatic(o: char)
    requires
        '1' <= o <= '7',
    ensures
        natural_key('C', o) is Some,
        sharp_key('C', o) == Some(natural_key('C', o)->0 + 1),
        natural_key('D', o) == Some(natural_key('C', o)->0 + 2),
        sharp_key('D', o) == Some(natural_key('C', o)->0 + 3),
        natural_key('E', o) == Some(natural_key('C', o)->0 + 4),
        natural_key('F', o) == Some(natural_key('C', o)->0 + 5),
        sharp_key('F', o) == Some(natural_key('C', o)->0 + 6),
        natural_key('G', o) == Some(natural_key('C', o)->0 + 7),
        sharp_key('G', o) == Some(natural_key('C', o)->0 + 8),
        natural_key('A', o) == Some(natural_key('C', o)->0 + 9),
        sharp_key('A', o) == Some(natural_key('C', o)->0 + 10),
        natural_key('B', o) == Some(natural_key('C', o)->0 + 11),
        flat_key('E', o) == sharp_key('D', o),
        flat_key('B', o) == sharp_key('A', o),
{
}

/// Octaves follow one another: the C of each octave is the key right
/// after the B of the octave below, and A4, the concert A, is key 48 of
/// the 88 (A0 being key 0 and C8 key 87).
pub proof fn lemma_octaves_are_consecutive(o: char)
    requires
        '0' <= o <= '7',
    ensures
        natural_key('B', o) is Some,
        natural_key('C', ((o as u32) + 1) as char) == Some(natural_key('B', o)->0 + 1),
        natural_key('A', '4') == Some(48int),
        natural_key('A', '0') == Some(0int),
        natural_key('C', '8') == Some(87int),
{
}

} // verus!
