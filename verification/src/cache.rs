//! Remembering what metadata was last handed to the OS.

use vstd::prelude::*;
use crate::state::{copy_track, same_track, track_view, PlaybackState, PlaybackStateView, Track, TrackView};

verus! {

/// The track and length whose metadata was last published, if any.
///
/// Rebuilding the OS widget's metadata (and artwork) is expensive, so the
/// Windows and macOS backends only do it when the track or its length changes.
pub struct MetadataCache {
    last: Option<(Option<Track>, u128)>,
}

/// Whether metadata must be republished for `s`, given what was last published.
pub open spec fn metadata_stale(last: Option<(Option<TrackView>, nat)>, s: PlaybackStateView) -> bool {
    match last {
        None => true,
        Some((track, length)) => track != s.track || length != s.length(),
    }
}

impl MetadataCache {
    /// What was last published.
    pub closed spec fn last_view(&self) -> Option<(Option<TrackView>, nat)> {
        match self.last {
            None => None,
            Some((track, length)) => Some((track_view(track), length as nat)),
        }
    }

    /// A cache that has seen nothing: the first snapshot is always published.
    pub fn new() -> (cache: MetadataCache)
        ensures
            cache.last_view() is None,
    {
        MetadataCache { last: None }
    }

    /// Whether the track or its length changed since the last publish.
    pub fn is_stale(&self, state: &PlaybackState) -> (stale: bool)
        ensures
            stale == metadata_stale(self.last_view(), state@),
    {
        match &self.last {
            None => true,
            Some((track, length)) => !same_track(track, &state.track) || *length
                != state.length_nanos(),
        }
    }

    /// Records that the metadata of `state` was published.
    pub fn record(&mut self, state: &PlaybackState)
        ensures
            final(self).last_view() == Some((state@.track, state@.length())),
    {
        self.last = Some((copy_track(&state.track), state.length_nanos()));
    }
}

/// Once a snapshot's metadata is recorded, any snapshot with the same track
/// and length (whatever its position, status, repeat or shuffle) needs no
/// republishing.
pub proof fn lemma_recorded_is_fresh(recorded: PlaybackStateView, s: PlaybackStateView)
    requires
        s.track == recorded.track,
        s.length() == recorded.length(),
    ensures
        !metadata_stale(Some((recorded.track, recorded.length())), s),
{
}

} // verus!
