//! The playback queue attached to a voice session, as the coordinator sees
//! it: the ordered tracks (the front one is playing) and whether playback is
//! currently paused.
use vstd::prelude::*;

verus! {

/// What the reporting fan-out reads of a track: its artist and title.
#[derive(Clone, Debug)]
pub struct TrackMetadata {
    pub artist: String,
    pub title: String,
}

/// A guild's playback queue. The track at the front is the one playing.
#[derive(Debug)]
pub struct Queue {
    pub tracks: Vec<TrackMetadata>,
    pub paused: bool,
}

impl Queue {
    /// Nothing queued, playback not paused.
    pub fn new() -> (q: Queue)
        ensures
            q.tracks@.len() == 0,
            !q.paused,
    {
        Queue { tracks: Vec::new(), paused: false }
    }

    /// Whether nothing is queued (and so nothing is playing).
    pub fn is_empty(&self) -> (r: bool)
        ensures
            r == (self.tracks@.len() == 0),
    {
        self.tracks.len() == 0
    }

    /// Appends a track at the back of the queue.
    pub fn enqueue(&mut self, track: TrackMetadata)
        ensures
            final(self).tracks@ == old(self).tracks@.push(track),
            final(self).paused == old(self).paused,
    {
        self.tracks.push(track);
    }
}

} // verus!
