//! The playback state a player publishes and the events the OS sends back.
//!
//! Times are held as whole nanoseconds (`u128`), which covers every
//! `std::time::Duration` exactly; microsecond figures for the wire are derived
//! from them by rounding half up.

use vstd::prelude::*;
use vstd::string::*;

verus! {

/// The text values of a list of strings.
pub open spec fn texts(v: Seq<String>) -> Seq<Seq<char>> {
    v.map_values(|s: String| s@)
}

/// Copies a list of strings, keeping every element's text.
pub fn copy_texts(v: &Vec<String>) -> (res: Vec<String>)
    ensures
        texts(res@) == texts(v@),
{
    let mut res: Vec<String> = Vec::new();
    let n = v.len();
    let mut i: usize = 0;
    while i < n
        invariant
            n == v.len(),
            i <= n,
            res@.len() == i,
            forall|j: int| 0 <= j < i ==> #[trigger] res@[j]@ == v@[j]@,
        decreases n - i,
    {
        res.push(v[i].clone());
        i = i + 1;
    }
    assert(texts(res@) =~= texts(v@));
    res
}

/// Whether two lists of strings hold the same texts in the same order.
pub fn texts_equal(a: &Vec<String>, b: &Vec<String>) -> (res: bool)
    ensures
        res == (texts(a@) == texts(b@)),
{
    if a.len() != b.len() {
        assert(texts(a@).len() != texts(b@).len());
        return false;
    }
    let n = a.len();
    let mut i: usize = 0;
    while i < n
        invariant
            n == a.len(),
            n == b.len(),
            i <= n,
            forall|j: int| 0 <= j < i ==> #[trigger] a@[j]@ == b@[j]@,
        decreases n - i,
    {
        if a[i] != b[i] {
            assert(texts(a@)[i as int] != texts(b@)[i as int]);
            return false;
        }
        i = i + 1;
    }
    assert(texts(a@) =~= texts(b@));
    true
}

/// What is currently playing.
///
/// Only `id` carries behaviour; the rest is display metadata that each
/// backend maps onto its platform's fields.
#[derive(Clone, Debug, PartialEq, Eq)]
pub struct Track {
    /// Stable identifier for this track, used to build the MPRIS track id.
    pub id: String,
    /// Track title.
    pub title: String,
    /// Every credited artist.
    pub artists: Vec<String>,
    /// Album title; empty omits the field.
    pub album: String,
    /// Cover art URL; empty clears any published artwork.
    pub artwork_url: String,
    /// A link to this track, published as MPRIS `xesam:url`.
    pub url: String,
}

/// The texts a track holds.
#[verifier::ext_equal]
pub struct TrackView {
    pub id: Seq<char>,
    pub title: Seq<char>,
    pub artists: Seq<Seq<char>>,
    pub album: Seq<char>,
    pub artwork_url: Seq<char>,
    pub url: Seq<char>,
}

impl View for Track {
    type V = TrackView;

    open spec fn view(&self) -> TrackView {
        TrackView {
            id: self.id@,
            title: self.title@,
            artists: texts(self.artists@),
            album: self.album@,
            artwork_url: self.artwork_url@,
            url: self.url@,
        }
    }
}

/// The primary artist of a track view: the first credited, or empty.
pub open spec fn primary_artist_of(t: TrackView) -> Seq<char> {
    if t.artists.len() > 0 {
        t.artists[0]
    } else {
        Seq::empty()
    }
}

impl Default for Track {
    fn default() -> (t: Track)
        ensures
            t@.id.len() == 0,
            t@.title.len() == 0,
            t@.artists.len() == 0,
            t@.album.len() == 0,
            t@.artwork_url.len() == 0,
            t@.url.len() == 0,
    {
        Track {
            id: String::new(),
            title: String::new(),
            artists: Vec::new(),
            album: String::new(),
            artwork_url: String::new(),
            url: String::new(),
        }
    }
}

impl Track {
    /// The primary artist, or an empty string when none is credited.
    pub fn primary_artist(&self) -> (artist: &str)
        ensures
            artist@ == primary_artist_of(self@),
    {
        if self.artists.len() > 0 {
            self.artists[0].as_str()
        } else {
            proof {
                reveal_strlit("");
            }
            ""
        }
    }

    /// A copy of this track with the same texts.
    pub fn copied(&self) -> (t: Track)
        ensures
            t@ == self@,
    {
        Track {
            id: self.id.clone(),
            title: self.title.clone(),
            artists: copy_texts(&self.artists),
            album: self.album.clone(),
            artwork_url: self.artwork_url.clone(),
            url: self.url.clone(),
        }
    }

    /// Whether two tracks hold the same texts.
    pub fn same_as(&self, other: &Track) -> (res: bool)
        ensures
            res == (self@ == other@),
    {
        let same = self.id == other.id && self.title == other.title && texts_equal(
            &self.artists,
            &other.artists,
        ) && self.album == other.album && self.artwork_url == other.artwork_url && self.url
            == other.url;
        if same {
            assert(self@ =~= other@);
        }
        same
    }
}

/// The view of an optional track.
pub open spec fn track_view(t: Option<Track>) -> Option<TrackView> {
    match t {
        Some(track) => Some(track@),
        None => None,
    }
}

/// Whether two optional tracks are both absent, or both present with the same texts.
pub fn same_track(a: &Option<Track>, b: &Option<Track>) -> (res: bool)
    ensures
        res == (track_view(*a) == track_view(*b)),
{
    match (a, b) {
        (Some(x), Some(y)) => x.same_as(y),
        (None, None) => true,
        _ => false,
    }
}

/// Copies an optional track.
pub fn copy_track(t: &Option<Track>) -> (res: Option<Track>)
    ensures
        track_view(res) == track_view(*t),
{
    match t {
        Some(x) => Some(x.copied()),
        None => None,
    }
}

/// Repeat mode, in the vocabulary every backend agrees on.
///
/// Maps to MPRIS `LoopStatus`, SMTC `MediaPlaybackAutoRepeatMode` and macOS
/// `MPRepeatType`.
#[derive(Clone, Copy, Debug, PartialEq, Eq, Structural)]
pub enum Repeat {
    /// Play through and stop.
    Off,
    /// Repeat the current track.
    One,
    /// Repeat the whole queue or playlist.
    All,
}

impl Default for Repeat {
    fn default() -> (mode: Repeat)
        ensures
            mode == Repeat::Off,
    {
        Repeat::Off
    }
}

/// What the player can currently do.
#[derive(Clone, Copy, Debug, PartialEq, Eq, Structural)]
pub struct Capabilities {
    /// Whether a next track exists.
    pub can_go_next: bool,
    /// Whether a previous track exists.
    pub can_go_previous: bool,
    /// Whether seeking is possible.
    pub can_seek: bool,
}

impl Default for Capabilities {
    /// Everything enabled: the right start for a player that always has a queue.
    fn default() -> (c: Capabilities)
        ensures
            c.can_go_next,
            c.can_go_previous,
            c.can_seek,
    {
        Capabilities { can_go_next: true, can_go_previous: true, can_seek: true }
    }
}

/// What the OS reports the player to be doing.
#[derive(Clone, Copy, Debug, PartialEq, Eq, Structural)]
pub enum PlaybackStatus {
    /// Nothing loaded.
    Stopped,
    /// A track is loaded and advancing.
    Playing,
    /// A track is loaded and held.
    Paused,
}

/// A complete snapshot of the player, without its volume.
///
/// Volume is a float and is handled where the platform's float lives; every
/// decision made here reads only the fields below.
#[derive(Clone, Debug, PartialEq, Eq)]
pub struct PlaybackState {
    /// The current track, or `None` when stopped with nothing loaded.
    pub track: Option<Track>,
    /// Whether playback is currently advancing.
    pub playing: bool,
    /// How far into the track playback has reached, in nanoseconds.
    pub position_nanos: u128,
    /// Track length in nanoseconds, or `None` when it is not known.
    pub duration_nanos: Option<u128>,
    /// Current repeat mode.
    pub repeat: Repeat,
    /// Whether shuffle is enabled.
    pub shuffle: bool,
    /// Which controls the OS should offer right now.
    pub capabilities: Capabilities,
}

/// The values a playback state holds.
#[verifier::ext_equal]
pub struct PlaybackStateView {
    pub track: Option<TrackView>,
    pub playing: bool,
    pub position: nat,
    pub duration: Option<nat>,
    pub repeat: Repeat,
    pub shuffle: bool,
    pub capabilities: Capabilities,
}

impl View for PlaybackState {
    type V = PlaybackStateView;

    open spec fn view(&self) -> PlaybackStateView {
        PlaybackStateView {
            track: track_view(self.track),
            playing: self.playing,
            position: self.position_nanos as nat,
            duration: match self.duration_nanos {
                Some(d) => Some(d as nat),
                None => None,
            },
            repeat: self.repeat,
            shuffle: self.shuffle,
            capabilities: self.capabilities,
        }
    }
}

impl PlaybackStateView {
    /// Whether a track is loaded.
    pub open spec fn has_track(self) -> bool {
        self.track is Some
    }

    /// The known length, zero when unknown.
    pub open spec fn length(self) -> nat {
        match self.duration {
            Some(d) => d,
            None => 0,
        }
    }

    /// The position, clamped to the length when the length is known and nonzero.
    pub open spec fn clamped_position(self) -> nat {
        if self.length() > 0 && self.position > self.length() {
            self.length()
        } else {
            self.position
        }
    }

    /// The artists of the current track, empty without one.
    pub open spec fn artists(self) -> Seq<Seq<char>> {
        match self.track {
            Some(t) => t.artists,
            None => Seq::empty(),
        }
    }

    /// Stopped without a track, otherwise playing or paused.
    pub open spec fn status(self) -> PlaybackStatus {
        if !self.has_track() {
            PlaybackStatus::Stopped
        } else if self.playing {
            PlaybackStatus::Playing
        } else {
            PlaybackStatus::Paused
        }
    }
}

/// The values of the default state: nothing loaded, paused at zero, repeat
/// off, shuffle off, every capability on.
pub open spec fn default_state_view() -> PlaybackStateView {
    PlaybackStateView {
        track: None,
        playing: false,
        position: 0,
        duration: None,
        repeat: Repeat::Off,
        shuffle: false,
        capabilities: Capabilities { can_go_next: true, can_go_previous: true, can_seek: true },
    }
}

impl Default for PlaybackState {
    fn default() -> (s: PlaybackState)
        ensures
            s@ == default_state_view(),
            s.track is None,
            !s.playing,
            s.position_nanos == 0,
            s.duration_nanos is None,
            s.repeat == Repeat::Off,
            !s.shuffle,
            s.capabilities == (Capabilities { can_go_next: true, can_go_previous: true, can_seek: true }),
    {
        PlaybackState {
            track: None,
            playing: false,
            position_nanos: 0,
            duration_nanos: None,
            repeat: Repeat::Off,
            shuffle: false,
            capabilities: Capabilities::default(),
        }
    }
}

impl PlaybackState {
    /// Whether a track is loaded.
    pub fn has_track(&self) -> (res: bool)
        ensures
            res == self@.has_track(),
    {
        self.track.is_some()
    }

    /// The artists of the current track, or none without a track.
    pub fn artists(&self) -> (res: Vec<String>)
        ensures
            texts(res@) == self@.artists(),
    {
        match &self.track {
            Some(t) => copy_texts(&t.artists),
            None => {
                let v: Vec<String> = Vec::new();
                assert(texts(v@) =~= Seq::<Seq<char>>::empty());
                v
            },
        }
    }

    /// The track length in nanoseconds, zero when unknown.
    pub fn length_nanos(&self) -> (res: u128)
        ensures
            res == self@.length(),
    {
        match self.duration_nanos {
            Some(d) => d,
            None => 0,
        }
    }

    /// The position clamped to the track length, so a stale position left over
    /// from a previous track cannot push a scrubber past the end.
    pub fn clamped_position_nanos(&self) -> (res: u128)
        ensures
            res == self@.clamped_position(),
            self@.length() > 0 ==> res <= self@.length(),
    {
        let length = self.length_nanos();
        if length > 0 && self.position_nanos > length {
            length
        } else {
            self.position_nanos
        }
    }

    /// Stopped without a track, otherwise playing or paused.
    pub fn status(&self) -> (res: PlaybackStatus)
        ensures
            res == self@.status(),
    {
        if !self.has_track() {
            PlaybackStatus::Stopped
        } else if self.playing {
            PlaybackStatus::Playing
        } else {
            PlaybackStatus::Paused
        }
    }

    /// A copy of this snapshot with the same values.
    pub fn copied(&self) -> (res: PlaybackState)
        ensures
            res@ == self@,
    {
        PlaybackState {
            track: copy_track(&self.track),
            playing: self.playing,
            position_nanos: self.position_nanos,
            duration_nanos: self.duration_nanos,
            repeat: self.repeat,
            shuffle: self.shuffle,
            capabilities: self.capabilities,
        }
    }
}

/// Whole microseconds nearest to `nanos`, halves rounding up, saturating at
/// `i64::MAX` as a float-to-integer cast does.
pub open spec fn micros_of(nanos: nat) -> int {
    let m = (nanos + 500) / 1000;
    if m > i64::MAX {
        i64::MAX as int
    } else {
        m as int
    }
}

/// Nanoseconds to the microseconds that D-Bus carries.
pub fn to_micros(nanos: u128) -> (res: i64)
    ensures
        res == micros_of(nanos as nat),
{
    let whole = nanos / 1000;
    let m = if nanos % 1000 >= 500 {
        whole + 1
    } else {
        whole
    };
    assert(m == (nanos + 500) / 1000) by (nonlinear_arith)
        requires
            whole == nanos / 1000,
            nanos % 1000 >= 500 ==> m == whole + 1,
            nanos % 1000 < 500 ==> m == whole,
    ;
    if m > 0x7fff_ffff_ffff_ffffu128 {
        0x7fff_ffff_ffff_ffffi64
    } else {
        m as i64
    }
}

/// A control the user activated, from a media key, the OS shell, or another
/// MPRIS client.
#[derive(Clone, Debug, PartialEq, Eq)]
pub enum Event {
    /// Begin or resume playback.
    Play,
    /// Pause, keeping the current position.
    Pause,
    /// Play if paused, pause if playing.
    PlayPause,
    /// Stop playback and return to the start.
    Stop,
    /// Skip to the next track.
    Next,
    /// Skip to the previous track.
    Previous,
    /// Seek to an absolute position, in nanoseconds.
    SeekTo(u128),
    /// Seek forwards (positive) or backwards (negative) by this many microseconds.
    SeekBy(i64),
    /// Requested shuffle state.
    SetShuffle(bool),
    /// Requested repeat mode.
    SetRepeat(Repeat),
    /// A URI the player was asked to open.
    OpenUri(String),
    /// Bring the player's window to the front.
    Raise,
    /// The player was asked to exit.
    Quit,
}

} // verus!
