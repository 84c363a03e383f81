//! Now Playing and the Remote Command Center (macOS): what is handed to the
//! OS and what its commands mean.

use vstd::prelude::*;
use vstd::string::*;
use crate::smtc::empty_track;
use crate::state::{primary_artist_of, Event, PlaybackState, PlaybackStateView, PlaybackStatus, Repeat};

verus! {

/// A payload-free command of `MPRemoteCommandCenter`.
#[derive(Clone, Copy, Debug, PartialEq, Eq, Structural)]
pub enum RemoteCommand {
    /// `playCommand`.
    Play,
    /// `pauseCommand`.
    Pause,
    /// `togglePlayPauseCommand`.
    TogglePlayPause,
    /// `nextTrackCommand`.
    NextTrack,
    /// `previousTrackCommand`.
    PreviousTrack,
    /// `stopCommand`.
    Stop,
}

/// The event a command delivers.
pub open spec fn command_event_of(command: RemoteCommand) -> Event {
    match command {
        RemoteCommand::Play => Event::Play,
        RemoteCommand::Pause => Event::Pause,
        RemoteCommand::TogglePlayPause => Event::PlayPause,
        RemoteCommand::NextTrack => Event::Next,
        RemoteCommand::PreviousTrack => Event::Previous,
        RemoteCommand::Stop => Event::Stop,
    }
}

/// Turns a command into an event.
pub fn command_event(command: RemoteCommand) -> (event: Event)
    ensures
        event == command_event_of(command),
{
    match command {
        RemoteCommand::Play => Event::Play,
        RemoteCommand::Pause => Event::Pause,
        RemoteCommand::TogglePlayPause => Event::PlayPause,
        RemoteCommand::NextTrack => Event::Next,
        RemoteCommand::PreviousTrack => Event::Previous,
        RemoteCommand::Stop => Event::Stop,
    }
}

/// `MPRepeatType`.
#[derive(Clone, Copy, Debug, PartialEq, Eq, Structural)]
pub enum RepeatType {
    /// `MPRepeatTypeOff`.
    Off,
    /// `MPRepeatTypeOne`.
    One,
    /// `MPRepeatTypeAll`.
    All,
}

/// The repeat mode an `MPRepeatType` asks for.
pub open spec fn repeat_of_type(t: RepeatType) -> Repeat {
    match t {
        RepeatType::One => Repeat::One,
        RepeatType::All => Repeat::All,
        RepeatType::Off => Repeat::Off,
    }
}

/// Reads a requested repeat type.
pub fn repeat_from_type(t: RepeatType) -> (mode: Repeat)
    ensures
        mode == repeat_of_type(t),
{
    match t {
        RepeatType::One => Repeat::One,
        RepeatType::All => Repeat::All,
        RepeatType::Off => Repeat::Off,
    }
}

/// The metadata dictionary published for a track.
#[derive(Clone, Debug, PartialEq, Eq)]
pub struct NowPlayingInfo {
    /// `MPMediaItemPropertyTitle`.
    pub title: String,
    /// `MPMediaItemPropertyArtist`: the primary artist, since Now Playing
    /// accepts only one.
    pub artist: String,
    /// `MPMediaItemPropertyAlbumTitle`.
    pub album: String,
    /// `MPMediaItemPropertyPlaybackDuration`, in nanoseconds; zero when unknown.
    pub duration_nanos: u128,
    /// Artwork to fetch and attach, if the track has an artwork URL.
    pub artwork_url: Option<String>,
}

/// The metadata of a snapshot: the track's title, primary artist and album
/// (all empty without a track), its length, and its artwork URL when nonempty.
pub open spec fn now_playing_info_holds(info: NowPlayingInfo, s: PlaybackStateView) -> bool {
    &&& info.title@ == (match s.track {
        Some(t) => t.title,
        None => Seq::empty(),
    })
    &&& info.album@ == (match s.track {
        Some(t) => t.album,
        None => Seq::empty(),
    })
    &&& info.artist@ == primary_artist_of(match s.track {
        Some(t) => t,
        None => empty_track(),
    })
    &&& info.duration_nanos == s.length()
    &&& match info.artwork_url {
        Some(url) => s.track matches Some(t) && t.artwork_url.len() > 0 && url@ == t.artwork_url,
        None => !(s.track matches Some(t) && t.artwork_url.len() > 0),
    }
}

/// Computes the metadata published for a snapshot.
pub fn now_playing_info(state: &PlaybackState) -> (info: NowPlayingInfo)
    ensures
        now_playing_info_holds(info, state@),
{
    match &state.track {
        Some(t) => NowPlayingInfo {
            title: t.title.clone(),
            artist: t.primary_artist().to_owned(),
            album: t.album.clone(),
            duration_nanos: state.length_nanos(),
            artwork_url: if t.artwork_url.as_str().is_empty() {
                None
            } else {
                Some(t.artwork_url.clone())
            },
        },
        None => NowPlayingInfo {
            title: String::new(),
            artist: String::new(),
            album: String::new(),
            duration_nanos: state.length_nanos(),
            artwork_url: None,
        },
    }
}

/// The playback fields refreshed on every publish.
#[derive(Clone, Copy, Debug, PartialEq, Eq, Structural)]
pub struct NowPlayingPlayback {
    /// `playbackState`.
    pub status: PlaybackStatus,
    /// `MPNowPlayingInfoPropertyElapsedPlaybackTime`, in nanoseconds, clamped
    /// to the length.
    pub elapsed_nanos: u128,
    /// Whether `MPNowPlayingInfoPropertyPlaybackRate` is 1 (advancing) rather
    /// than 0; without it Control Center's scrubber never advances.
    pub advancing: bool,
}

/// The playback fields of a snapshot.
pub open spec fn now_playing_playback_of(s: PlaybackStateView) -> NowPlayingPlayback {
    NowPlayingPlayback {
        status: s.status(),
        elapsed_nanos: s.clamped_position() as u128,
        advancing: s.playing,
    }
}

/// Computes the playback fields of a snapshot.
pub fn now_playing_playback(state: &PlaybackState) -> (p: NowPlayingPlayback)
    ensures
        p == now_playing_playback_of(state@),
{
    NowPlayingPlayback {
        status: state.status(),
        elapsed_nanos: state.clamped_position_nanos(),
        advancing: state.playing,
    }
}

} // verus!

verus! {

/// The playback rate advances exactly while the snapshot is playing, so a
/// paused track's scrubber stands still; the status is `Playing` exactly for
/// a playing track and `Stopped` exactly without one; the elapsed time is the
/// position, never past a known nonzero length.
pub proof fn lemma_playback_follows_state(state: PlaybackState)
    ensures
        ({
            let s = state@;
            let p = now_playing_playback_of(s);
            &&& p.advancing == s.playing
            &&& (s.track is Some && !s.playing) ==> !p.advancing
            &&& (p.status == PlaybackStatus::Playing) == (s.track is Some && s.playing)
            &&& (p.status == PlaybackStatus::Stopped) == (s.track is None)
            &&& s.length() > 0 ==> p.elapsed_nanos <= s.length()
            &&& (s.length() == 0 || s.position <= s.length()) ==> p.elapsed_nanos == s.position
        }),
{
}

/// The published metadata of a track: its title, its first credited artist
/// (empty when none is credited), its album, its length and its artwork URL
/// when it has one; without a track, empty texts and no artwork.
pub proof fn lemma_info_follows_track(info: NowPlayingInfo, s: PlaybackStateView)
    requires
        now_playing_info_holds(info, s),
    ensures
        info.duration_nanos == s.length(),
        s.track matches Some(t) ==> {
            &&& info.title@ == t.title
            &&& info.album@ == t.album
            &&& t.artists.len() > 0 ==> info.artist@ == t.artists[0]
            &&& t.artists.len() == 0 ==> info.artist@.len() == 0
            &&& (info.artwork_url is Some) == (t.artwork_url.len() > 0)
            &&& info.artwork_url matches Some(url) ==> url@ == t.artwork_url
        },
        s.track is None ==> info.title@.len() == 0 && info.artist@.len() == 0
            && info.album@.len() == 0 && info.artwork_url is None,
{
}

} // verus!
