//! System Media Transport Controls (Windows): what is handed to the OS and
//! what its requests mean.

use vstd::prelude::*;
use vstd::string::*;
use crate::config::PlayerConfig;
use crate::error::Error;
use crate::mpris::{checked_seek, seek_within};
use crate::state::{primary_artist_of, Event, PlaybackState, PlaybackStateView, PlaybackStatus, Repeat, Track};

verus! {

/// SMTC's `MediaPlaybackAutoRepeatMode`.
#[derive(Clone, Copy, Debug, PartialEq, Eq, Structural)]
pub enum AutoRepeatMode {
    /// No repeat (SMTC's `None`).
    Off,
    /// Repeat the current track.
    Track,
    /// Repeat the list.
    List,
}

/// The SMTC repeat mode of a repeat mode.
pub open spec fn winrt_repeat_of(mode: Repeat) -> AutoRepeatMode {
    match mode {
        Repeat::Off => AutoRepeatMode::Off,
        Repeat::One => AutoRepeatMode::Track,
        Repeat::All => AutoRepeatMode::List,
    }
}

/// The repeat mode an SMTC repeat mode asks for.
pub open spec fn repeat_of_winrt(mode: AutoRepeatMode) -> Repeat {
    match mode {
        AutoRepeatMode::Track => Repeat::One,
        AutoRepeatMode::List => Repeat::All,
        AutoRepeatMode::Off => Repeat::Off,
    }
}

/// Writes a repeat mode for SMTC.
pub fn repeat_to_winrt(mode: Repeat) -> (res: AutoRepeatMode)
    ensures
        res == winrt_repeat_of(mode),
{
    match mode {
        Repeat::Off => AutoRepeatMode::Off,
        Repeat::One => AutoRepeatMode::Track,
        Repeat::All => AutoRepeatMode::List,
    }
}

/// Reads an SMTC repeat mode.
pub fn repeat_from_winrt(mode: AutoRepeatMode) -> (res: Repeat)
    ensures
        res == repeat_of_winrt(mode),
{
    match mode {
        AutoRepeatMode::Track => Repeat::One,
        AutoRepeatMode::List => Repeat::All,
        AutoRepeatMode::Off => Repeat::Off,
    }
}

/// The two repeat vocabularies correspond one to one.
pub proof fn lemma_winrt_repeat_round_trip(mode: Repeat, w: AutoRepeatMode)
    ensures
        repeat_of_winrt(winrt_repeat_of(mode)) == mode,
        winrt_repeat_of(repeat_of_winrt(w)) == w,
{
}

/// SMTC's `SystemMediaTransportControlsButton`.
#[derive(Clone, Copy, Debug, PartialEq, Eq, Structural)]
pub enum TransportButton {
    Play,
    Pause,
    Stop,
    Record,
    FastForward,
    Rewind,
    Next,
    Previous,
    ChannelUp,
    ChannelDown,
}

/// The event a pressed button delivers, if any. SMTC gives fast-forward and
/// rewind no magnitude, so they seek by ten seconds (in microseconds).
pub open spec fn button_event_of(button: TransportButton) -> Option<Event> {
    match button {
        TransportButton::Play => Some(Event::Play),
        TransportButton::Pause => Some(Event::Pause),
        TransportButton::Stop => Some(Event::Stop),
        TransportButton::Next => Some(Event::Next),
        TransportButton::Previous => Some(Event::Previous),
        TransportButton::FastForward => Some(Event::SeekBy(10_000_000i64)),
        TransportButton::Rewind => Some(Event::SeekBy(-10_000_000i64)),
        _ => None,
    }
}

/// Turns a pressed button into an event.
pub fn button_event(button: TransportButton) -> (event: Option<Event>)
    ensures
        event == button_event_of(button),
{
    match button {
        TransportButton::Play => Some(Event::Play),
        TransportButton::Pause => Some(Event::Pause),
        TransportButton::Stop => Some(Event::Stop),
        TransportButton::Next => Some(Event::Next),
        TransportButton::Previous => Some(Event::Previous),
        TransportButton::FastForward => Some(Event::SeekBy(10_000_000)),
        TransportButton::Rewind => Some(Event::SeekBy(-10_000_000)),
        _ => None,
    }
}

/// The nanoseconds a WinRT `TimeSpan` of `ticks` (100 ns units) converts to:
/// `ticks * 100` taken modulo 2^64, as the conversion's `as u64` does, so a
/// negative time becomes a very large one.
pub open spec fn timespan_nanos(ticks: i64) -> nat {
    ((ticks * 100) % 0x1_0000_0000_0000_0000int) as nat
}

/// The event a `PlaybackPositionChangeRequested` for `ticks` delivers: a seek
/// to the converted time, validated against the published length.
pub open spec fn position_request_event(ticks: i64, length: nat) -> Option<Event> {
    seek_within(length, timespan_nanos(ticks))
}

/// Turns a position change request into an event.
pub fn position_request(ticks: i64, length_nanos: u128) -> (event: Option<Event>)
    ensures
        event == position_request_event(ticks, length_nanos as nat),
{
    let unsigned: u64 = if ticks >= 0 {
        ticks as u64
    } else {
        (ticks as i128 + 0x1_0000_0000_0000_0000i128) as u64
    };
    let nanos = unsigned.wrapping_mul(100);
    assert(nanos as int == timespan_nanos(ticks)) by (nonlinear_arith)
        requires
            nanos as int == (unsigned as int * 100) % 0x1_0000_0000_0000_0000int,
            unsigned as int == ticks as int || unsigned as int == ticks as int + 0x1_0000_0000_0000_0000int,
    ;
    checked_seek(length_nanos, nanos as u128)
}

/// The window SMTC attaches to: required on Windows.
pub fn smtc_window(config: &PlayerConfig) -> (hwnd: Result<u64, Error>)
    ensures
        match config.hwnd {
            Some(h) => hwnd == Ok::<u64, Error>(h),
            None => hwnd matches Err(Error::Config(detail)) && detail@
                == "Windows media controls require PlayerConfig::hwnd"@,
        },
{
    match config.hwnd {
        Some(h) => Ok(h),
        None => Err(Error::Config("Windows media controls require PlayerConfig::hwnd".to_owned())),
    }
}

/// The transport controls' settings for one snapshot.
#[derive(Clone, Copy, Debug, PartialEq, Eq, Structural)]
pub struct SmtcControls {
    /// `PlaybackStatus`.
    pub status: PlaybackStatus,
    /// `IsPlayEnabled`.
    pub play_enabled: bool,
    /// `IsPauseEnabled`.
    pub pause_enabled: bool,
    /// `IsStopEnabled`.
    pub stop_enabled: bool,
    /// `IsNextEnabled`.
    pub next_enabled: bool,
    /// `IsPreviousEnabled`.
    pub previous_enabled: bool,
    /// `IsFastForwardEnabled`.
    pub fast_forward_enabled: bool,
    /// `IsRewindEnabled`.
    pub rewind_enabled: bool,
    /// `ShuffleEnabled`.
    pub shuffle: bool,
    /// `AutoRepeatMode`.
    pub repeat: AutoRepeatMode,
    /// The timeline's end time and maximum seek time, in nanoseconds; zero
    /// when the length is unknown.
    pub end_nanos: u128,
    /// The timeline's position, in nanoseconds, clamped to the length.
    pub position_nanos: u128,
}

/// The transport controls' settings for a snapshot: play, pause and stop
/// only with a track, next, previous and seeking from the capabilities.
pub open spec fn smtc_controls_of(s: PlaybackStateView) -> SmtcControls {
    SmtcControls {
        status: s.status(),
        play_enabled: s.has_track(),
        pause_enabled: s.has_track(),
        stop_enabled: s.has_track(),
        next_enabled: s.capabilities.can_go_next,
        previous_enabled: s.capabilities.can_go_previous,
        fast_forward_enabled: s.capabilities.can_seek,
        rewind_enabled: s.capabilities.can_seek,
        shuffle: s.shuffle,
        repeat: winrt_repeat_of(s.repeat),
        end_nanos: s.length() as u128,
        position_nanos: s.clamped_position() as u128,
    }
}

/// Computes the transport controls' settings for a snapshot.
pub fn smtc_controls(state: &PlaybackState) -> (c: SmtcControls)
    ensures
        c == smtc_controls_of(state@),
{
    let has_track = state.has_track();
    SmtcControls {
        status: state.status(),
        play_enabled: has_track,
        pause_enabled: has_track,
        stop_enabled: has_track,
        next_enabled: state.capabilities.can_go_next,
        previous_enabled: state.capabilities.can_go_previous,
        fast_forward_enabled: state.capabilities.can_seek,
        rewind_enabled: state.capabilities.can_seek,
        shuffle: state.shuffle,
        repeat: repeat_to_winrt(state.repeat),
        end_nanos: state.length_nanos(),
        position_nanos: state.clamped_position_nanos(),
    }
}

/// What the SMTC display updater shows for a track.
#[derive(Clone, Debug, PartialEq, Eq)]
pub struct SmtcDisplay {
    /// `Title`.
    pub title: String,
    /// `Artist` and `AlbumArtist`: the primary artist.
    pub artist: String,
    /// `AlbumTitle`.
    pub album: String,
    /// The thumbnail URL, or `None` to clear the thumbnail.
    pub thumbnail: Option<String>,
}

/// The title shown when the track has none.
pub open spec fn fallback_title() -> Seq<char> {
    "Orchard"@
}

/// The empty track shown when nothing is loaded.
pub open spec fn empty_track() -> crate::state::TrackView {
    crate::state::TrackView {
        id: Seq::empty(),
        title: Seq::empty(),
        artists: Seq::empty(),
        album: Seq::empty(),
        artwork_url: Seq::empty(),
        url: Seq::empty(),
    }
}

/// The display of a snapshot's track (an empty one without a track): its
/// title or the fallback title when empty, its primary artist, its album,
/// and its artwork URL as thumbnail when nonempty.
pub open spec fn smtc_display_holds(d: SmtcDisplay, s: PlaybackStateView) -> bool {
    let t = match s.track {
        Some(t) => t,
        None => empty_track(),
    };
    &&& d.title@ == (if t.title.len() == 0 { fallback_title() } else { t.title })
    &&& d.artist@ == primary_artist_of(t)
    &&& d.album@ == t.album
    &&& match d.thumbnail {
        Some(url) => t.artwork_url.len() > 0 && url@ == t.artwork_url,
        None => t.artwork_url.len() == 0,
    }
}

/// Computes what the display updater shows for a snapshot.
pub fn smtc_display(state: &PlaybackState) -> (d: SmtcDisplay)
    ensures
        smtc_display_holds(d, state@),
{
    let track = match &state.track {
        Some(t) => t.copied(),
        None => Track::default(),
    };
    let title = if track.title.as_str().is_empty() {
        "Orchard".to_owned()
    } else {
        track.title.clone()
    };
    let artist = track.primary_artist().to_owned();
    let thumbnail = if track.artwork_url.as_str().is_empty() {
        None
    } else {
        Some(track.artwork_url.clone())
    };
    assert(state@.track is None ==> track@ =~= empty_track());
    SmtcDisplay { title, artist, album: track.album.clone(), thumbnail }
}

} // verus!

verus! {

/// The transport controls follow the snapshot: status is `Stopped` exactly
/// without a track and `Playing` exactly with a playing track; play, pause
/// and stop are offered exactly with a track; next, previous and seeking
/// follow the capabilities; shuffle is the snapshot's shuffle; the repeat
/// mode reads back as the snapshot's; the timeline ends at the known length
/// (zero when unknown) and its position never passes a nonzero end.
pub proof fn lemma_smtc_controls_follow_state(state: PlaybackState)
    ensures
        ({
            let s = state@;
            let c = smtc_controls_of(s);
            &&& (c.status == PlaybackStatus::Stopped) == (s.track is None)
            &&& (c.status == PlaybackStatus::Playing) == (s.track is Some && s.playing)
            &&& (c.status == PlaybackStatus::Paused) == (s.track is Some && !s.playing)
            &&& c.play_enabled == (s.track is Some)
            &&& c.pause_enabled == (s.track is Some)
            &&& c.stop_enabled == (s.track is Some)
            &&& c.next_enabled == s.capabilities.can_go_next
            &&& c.previous_enabled == s.capabilities.can_go_previous
            &&& c.fast_forward_enabled == s.capabilities.can_seek
            &&& c.rewind_enabled == s.capabilities.can_seek
            &&& c.shuffle == s.shuffle
            &&& repeat_of_winrt(c.repeat) == s.repeat
            &&& c.end_nanos == (match s.duration {
                Some(d) => d,
                None => 0,
            })
            &&& c.end_nanos > 0 ==> c.position_nanos <= c.end_nanos
            &&& (c.end_nanos == 0 || s.position <= c.end_nanos) ==> c.position_nanos == s.position
        }),
{
}

/// Toggling shuffle in the snapshot toggles exactly the shuffle setting.
pub proof fn lemma_smtc_shuffle_only(s: PlaybackStateView, on: bool)
    ensures
        smtc_controls_of(PlaybackStateView { shuffle: on, ..s }) == (SmtcControls {
            shuffle: on,
            ..smtc_controls_of(s)
        }),
{
}

} // verus!
