//! The music player's state: whether the tune is meant to be heard, and
//! whether an output stream is open for it.
use vstd::prelude::*;

verus! {

/// Whether the music is meant to be heard, and whether an output stream
/// has been opened for it.
#[derive(Debug, Clone, Copy, PartialEq, Eq, Structural)]
pub struct Playback {
    pub playing: bool,
    pub has_stream: bool,
}

/// The state after `toggle`.
pub open spec fn toggled(p: Playback) -> Playback {
    Playback { playing: !p.playing, has_stream: p.has_stream }
}

/// The state after `play`.
pub open spec fn played(p: Playback) -> Playback {
    if p.has_stream {
        p
    } else {
        Playback { playing: true, has_stream: true }
    }
}

/// Toggling twice leaves the music as it was.
pub proof fn lemma_toggle_twice(p: Playback)
    ensures
        toggled(toggled(p)) == p,
{
}

/// Playing again while a stream is open opens no second stream and
/// changes nothing.
pub proof fn lemma_play_is_idempotent(p: Playback)
    ensures
        played(played(p)) == played(p),
        played(p).has_stream,
{
}

impl Playback {
    /// Stopped, with no stream.
    pub fn new() -> (p: Playback)
        ensures
            !p.playing && !p.has_stream,
    {
        Playback { playing: false, has_stream: false }
    }

    /// Starts the music. Returns whether a stream is to be opened: only when
    /// there is none yet; with a stream already open nothing changes.
    pub fn play(&mut self) -> (open_stream: bool)
        ensures
            open_stream == !old(self).has_stream,
            *final(self) == played(*old(self)),
            old(self).has_stream ==> *final(self) == *old(self),
            !old(self).has_stream ==> final(self).playing && final(self).has_stream,
    {
        if self.has_stream {
            return false;
        }
        self.playing = true;
        self.has_stream = true;
        true
    }

    /// Pauses the music if it plays and resumes it if it is paused; the
    /// message says which.
    pub fn toggle(&mut self) -> (message: &'static str)
        ensures
            *final(self) == toggled(*old(self)),
            final(self).playing == !old(self).playing,
            final(self).has_stream == old(self).has_stream,
            old(self).playing ==> message@ == "Music is now paused."@,
            !old(self).playing ==> message@ == "Music is now playing."@,
    {
        let was_playing = self.playing;
        self.playing = !was_playing;
        if was_playing {
            "Music is now paused."
        } else {
            "Music is now playing."
        }
    }

    /// Stops the music and drops the stream.
    pub fn stop(&mut self) -> (message: &'static str)
        ensures
            !final(self).playing && !final(self).has_stream,
            message@ == "Music stopped."@,
    {
        self.has_stream = false;
        self.playing = false;
        "Music stopped."
    }
}

} // verus!
