use tbg::music::manager::{
    key_of_note, note_centihertz, Frame, Sequencer, BASS_MILLIS, BASS_NOTES, MELODY_MILLIS,
    MELODY_NOTES,
};
use tbg::music::music_player::Playback;

#[test]
fn concert_pitch_and_table_ends() {
    assert_eq!(note_centihertz("A4"), 44000);
    assert_eq!(note_centihertz("A0"), 2750);
    assert_eq!(note_centihertz("C8"), 418601);
    assert_eq!(note_centihertz("C4"), 26163);
    assert_eq!(note_centihertz("F#3"), 18500);
    assert_eq!(note_centihertz("E\u{266d}1"), 3889);
    assert_eq!(note_centihertz("B\u{266d}0"), 2914);
}

#[test]
fn enharmonic_spellings_agree() {
    for o in '0'..='8' {
        let a = format!("A#{}", o);
        let b = format!("B\u{266d}{}", o);
        assert_eq!(note_centihertz(&a), note_centihertz(&b));
        let d = format!("D#{}", o);
        let e = format!("E\u{266d}{}", o);
        assert_eq!(note_centihertz(&d), note_centihertz(&e));
    }
}

#[test]
fn rests_and_unknown_names_are_silent() {
    assert_eq!(note_centihertz(""), 0);
    assert_eq!(note_centihertz("A\u{266d}2"), 0);
    assert_eq!(note_centihertz("C#8"), 0);
    assert_eq!(note_centihertz("G#0"), 0);
    assert_eq!(note_centihertz("H4"), 0);
    assert_eq!(note_centihertz("A44"), 0);
    assert_eq!(note_centihertz("a4"), 0);
    assert_eq!(key_of_note("A4"), Some(48));
    assert_eq!(key_of_note("C1"), Some(3));
}

#[test]
fn float_pitches_match_the_table_exactly() {
    assert_eq!(note_centihertz("B\u{266d}4") as f32 / 100.0, 466.16f32);
    assert_eq!(note_centihertz("C#5") as f32 / 100.0, 554.37f32);
    assert_eq!(note_centihertz("A#0") as f32 / 100.0, 29.14f32);
}

#[test]
fn tune_tables() {
    assert_eq!(MELODY_NOTES.len(), 124);
    assert_eq!(BASS_NOTES.len(), 33);
    assert_eq!(MELODY_NOTES[0], "B\u{266d}4");
    assert_eq!(MELODY_MILLIS[2], 3000);
    assert_eq!(BASS_NOTES[0], "");
    assert_eq!(BASS_MILLIS[1], 1000);
    assert_eq!(BASS_NOTES[3], "A\u{266d}2");
}

#[test]
fn sequencer_moves_on_after_a_note_has_lasted() {
    // At 2 samples a second a 500 ms note lasts one sample, a 1000 ms note two.
    let mut s = Sequencer::new();
    let frames = s.render(3, 2);
    assert_eq!(
        frames[0],
        Frame { melody_centihertz: 46616, bass_centihertz: 0, sample: 0 }
    );
    // The melody note lasts 1 sample: the second sample plays the next one.
    assert_eq!(frames[1].melody_centihertz, 39200);
    assert_eq!(frames[1].bass_centihertz, 0);
    // The bass rest lasts 2 samples.
    assert_eq!(frames[2].bass_centihertz, note_centihertz("E\u{266d}2"));
    assert_eq!(frames[2].sample, 2);
    assert_eq!(s.sample_counter, 3);
    assert_eq!(s.melody_index, 2);
    assert_eq!(s.bass_index, 1);
}

#[test]
fn sequencer_keeps_buffer_start_lengths() {
    // Lengths are fixed when the buffer starts: the melody's first note is
    // 500 ms (1 sample at 2 Hz), so every later note in the same buffer
    // also lasts one sample.
    let mut s = Sequencer::new();
    let frames = s.render(4, 2);
    assert_eq!(frames[2].melody_centihertz, note_centihertz("D4"));
    assert_eq!(frames[3].melody_centihertz, note_centihertz("B\u{266d}3"));
    assert_eq!(s.melody_index, 3);
}

#[test]
fn sequencer_wraps_at_the_end_of_the_tune() {
    let mut s = Sequencer {
        melody_index: 123,
        bass_index: 32,
        melody_counter: 5000,
        bass_counter: 5000,
        sample_counter: 100,
    };
    let frames = s.render(1, 1000);
    assert_eq!(s.melody_index, 0);
    assert_eq!(s.bass_index, 0);
    assert_eq!(frames[0].melody_centihertz, note_centihertz("B\u{266d}4"));
    assert_eq!(frames[0].sample, 100);
    assert_eq!(s.melody_counter, 1);
}

#[test]
fn playback_controls() {
    let mut p = Playback::new();
    assert!(p.play());
    assert!(p.playing && p.has_stream);
    assert!(!p.play());
    assert_eq!(p.toggle(), "Music is now paused.");
    assert!(!p.playing);
    assert_eq!(p.toggle(), "Music is now playing.");
    assert!(p.playing);
    assert_eq!(p.stop(), "Music stopped.");
    assert!(!p.playing && !p.has_stream);
    assert!(p.play());
}
