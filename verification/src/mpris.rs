//! MPRIS v2: the decisions behind the D-Bus interface.

use vstd::prelude::*;
use vstd::string::*;
use crate::config::PlayerConfig;
use crate::state::{
    default_state_view, micros_of, same_track, texts, to_micros, Event, PlaybackState,
    PlaybackStateView,
    PlaybackStatus, Repeat, TrackView,
};
use crate::text::{trim_slashes_end, trim_trailing_slashes};
use crate::text::same_text;

verus! {

/// Whether `c` is an ASCII letter or digit.
pub open spec fn is_ascii_alnum(c: char) -> bool {
    ('a' <= c && c <= 'z') || ('A' <= c && c <= 'Z') || ('0' <= c && c <= '9')
}

/// Whether `c` may appear in a D-Bus object path.
pub open spec fn is_path_char(c: char) -> bool {
    is_ascii_alnum(c) || c == '_' || c == '/'
}

/// A D-Bus object path: a `/`, then names of ASCII letters, digits and `_`
/// separated by single `/`, with no trailing `/` except for the root path.
pub open spec fn valid_object_path(s: Seq<char>) -> bool {
    &&& s.len() >= 1
    &&& s[0] == '/'
    &&& forall|i: int| 0 <= i < s.len() ==> is_path_char(#[trigger] s[i])
    &&& forall|i: int| 0 <= i < s.len() - 1 ==> !(#[trigger] s[i] == '/' && s[i + 1] == '/')
    &&& s.len() > 1 ==> s[s.len() - 1] != '/'
}

/// The path MPRIS reserves for "no track".
pub open spec fn no_track_path() -> Seq<char> {
    "/org/mpris/MediaPlayer2/TrackList/NoTrack"@
}

pub proof fn lemma_no_track_path_valid()
    ensures
        valid_object_path(no_track_path()),
{
    reveal_strlit("/org/mpris/MediaPlayer2/TrackList/NoTrack");
    let s = no_track_path();
    assert(s.len() == 41);
    assert(s[0] == '/');
    assert(s[40] == 'k');
    assert forall|i: int| 0 <= i < s.len() implies is_path_char(#[trigger] s[i]) by {}
    assert forall|i: int| 0 <= i < s.len() - 1 implies !(#[trigger] s[i] == '/' && s[i + 1] == '/') by {}
}

} // verus!

verus! {

/// A track id with every character that is not an ASCII letter or digit
/// replaced by `_`.
pub open spec fn sanitized(id: Seq<char>) -> Seq<char> {
    id.map_values(|c: char| if is_ascii_alnum(c) { c } else { '_' })
}

/// Sanitizes a track id for use as an object-path element.
pub fn sanitize_id(id: &str) -> (res: String)
    ensures
        res@ == sanitized(id@),
{
    broadcast use vstd::string::group_string_axioms;
    let mut out = String::new();
    for c in it: id.chars()
        invariant
            it.seq() == id@,
            out@ == sanitized(id@.take(it.index() as int)),
    {
        assert(id@.take(it.index() + 1) =~= id@.take(it.index() as int).push(c));
        let ok = ('a' <= c && c <= 'z') || ('A' <= c && c <= 'Z') || ('0' <= c && c <= '9');
        if ok {
            crate::text::push_char(&mut out, c);
        } else {
            crate::text::push_char(&mut out, '_');
        }
        assert(out@ =~= sanitized(id@.take(it.index() + 1)));
    }
    assert(id@.take(id@.len() as int) =~= id@);
    out
}

} // verus!

verus! {

/// The repeat mode an MPRIS `LoopStatus` value names; anything unknown is `Off`.
pub open spec fn repeat_of_loop_status(value: Seq<char>) -> Repeat {
    if value == "Track"@ {
        Repeat::One
    } else if value == "Playlist"@ {
        Repeat::All
    } else {
        Repeat::Off
    }
}

/// The MPRIS `LoopStatus` value of a repeat mode.
pub open spec fn loop_status_of(mode: Repeat) -> Seq<char> {
    match mode {
        Repeat::Off => "None"@,
        Repeat::One => "Track"@,
        Repeat::All => "Playlist"@,
    }
}

/// Reads an MPRIS `LoopStatus` value.
pub fn loop_status_to_repeat(value: &str) -> (mode: Repeat)
    ensures
        mode == repeat_of_loop_status(value@),
{
    if same_text(value, "Track") {
        Repeat::One
    } else if same_text(value, "Playlist") {
        Repeat::All
    } else {
        Repeat::Off
    }
}

/// Writes a repeat mode as an MPRIS `LoopStatus` value.
pub fn repeat_to_loop_status(mode: Repeat) -> (value: &'static str)
    ensures
        value@ == loop_status_of(mode),
{
    match mode {
        Repeat::Off => "None",
        Repeat::One => "Track",
        Repeat::All => "Playlist",
    }
}

/// Reading back a written `LoopStatus` gives the mode that was written.
pub proof fn lemma_loop_status_round_trip(mode: Repeat)
    ensures
        repeat_of_loop_status(loop_status_of(mode)) == mode,
{
    reveal_strlit("None");
    reveal_strlit("Track");
    reveal_strlit("Playlist");
    assert("None"@ != "Track"@ && "None"@ != "Playlist"@) by {
        assert("None"@[0] != "Track"@[0]);
        assert("None"@.len() != "Playlist"@.len());
    }
    assert("Track"@ != "Playlist"@) by {
        assert("Track"@.len() != "Playlist"@.len());
    }
}

/// `zvariant::ObjectPath::try_from(&str)`: succeeds exactly on the texts its
/// `validate` accepts, which are those `valid_object_path` describes.
#[verifier::external_body]
fn object_path_accepts(text: &str) -> (ok: bool)
    ensures
        ok == valid_object_path(text@),
{
    zvariant::ObjectPath::try_from(text).is_ok()
}

/// The `mpris:trackid` of a track under `prefix`: `prefix/<sanitized id>`,
/// or the no-track path when there is no track, its id is empty, or the
/// result would not be an object path.
pub open spec fn track_path_of(track: Option<TrackView>, prefix: Seq<char>) -> Seq<char> {
    match track {
        None => no_track_path(),
        Some(t) => {
            let p = prefix + "/"@ + sanitized(t.id);
            if t.id.len() == 0 || !valid_object_path(p) {
                no_track_path()
            } else {
                p
            }
        },
    }
}

/// The MPRIS track id object path of the current track.
pub fn track_object_path(state: &PlaybackState, prefix: &str) -> (path: String)
    ensures
        path@ == track_path_of(state@.track, prefix@),
{
    match &state.track {
        None => "/org/mpris/MediaPlayer2/TrackList/NoTrack".to_owned(),
        Some(track) => {
            if track.id.as_str().is_empty() {
                return "/org/mpris/MediaPlayer2/TrackList/NoTrack".to_owned();
            }
            let mut path = prefix.to_owned();
            path.append("/");
            let id = sanitize_id(track.id.as_str());
            path.append(id.as_str());
            if object_path_accepts(path.as_str()) {
                path
            } else {
                "/org/mpris/MediaPlayer2/TrackList/NoTrack".to_owned()
            }
        },
    }
}

/// Every track id this backend publishes is a D-Bus object path.
pub proof fn lemma_track_path_valid(track: Option<TrackView>, prefix: Seq<char>)
    ensures
        valid_object_path(track_path_of(track, prefix)),
{
    lemma_no_track_path_valid();
}

/// A nonempty text of letters, digits and `_`: one object-path element.
pub open spec fn is_path_element(e: Seq<char>) -> bool {
    e.len() > 0 && forall|i: int| 0 <= i < e.len() ==> (is_ascii_alnum(#[trigger] e[i]) || e[i] == '_')
}

/// A sanitized nonempty id is an object-path element.
pub proof fn lemma_sanitized_is_element(id: Seq<char>)
    requires
        id.len() > 0,
    ensures
        is_path_element(sanitized(id)),
{
}

/// Appending `/element` to the empty text or to an object path other than
/// the root gives an object path.
pub proof fn lemma_extend_path(prefix: Seq<char>, e: Seq<char>)
    requires
        prefix.len() == 0 || (valid_object_path(prefix) && prefix.len() > 1),
        is_path_element(e),
    ensures
        valid_object_path(prefix + "/"@ + e),
{
    reveal_strlit("/");
    let p = prefix + "/"@ + e;
    let k = prefix.len() as int;
    assert(p.len() == k + 1 + e.len());
    assert(p[k] == '/');
    assert forall|i: int| 0 <= i < e.len() implies p[k + 1 + i] == e[i] by {}
    assert forall|i: int| 0 <= i < k implies p[i] == prefix[i] by {}
    assert forall|i: int| 0 <= i < p.len() implies is_path_char(#[trigger] p[i]) by {
        if i < k {
            assert(p[i] == prefix[i]);
        } else if i > k {
            assert(p[i] == e[i - k - 1]);
        }
    }
    assert forall|i: int| 0 <= i < p.len() - 1 implies !(#[trigger] p[i] == '/' && p[i + 1] == '/') by {
        if i < k - 1 {
            assert(p[i] == prefix[i] && p[i + 1] == prefix[i + 1]);
        } else if i == k - 1 {
            assert(p[i] == prefix[k - 1]);
        } else if i == k {
            assert(p[i + 1] == e[0]);
        } else {
            assert(p[i] == e[i - k - 1]);
        }
    }
    assert(p[p.len() - 1] == e[e.len() - 1]);
    if k == 0 {
        assert(p[0] == '/');
    } else {
        assert(p[0] == prefix[0]);
    }
}

} // verus!

verus! {

/// Trimming the trailing slashes of an object path leaves either the empty
/// text (for the root path) or an object path other than the root.
pub proof fn lemma_trimmed_prefix(prefix: Seq<char>)
    requires
        valid_object_path(prefix),
    ensures
        trim_trailing_slashes(prefix).len() == 0 || (valid_object_path(
            trim_trailing_slashes(prefix),
        ) && trim_trailing_slashes(prefix).len() > 1),
{
    crate::text::lemma_trim_shape(prefix);
    if prefix.len() > 1 {
        assert(trim_trailing_slashes(prefix) == prefix) by {
            reveal_with_fuel(trim_trailing_slashes, 2);
        }
    } else {
        assert(prefix.last() == '/');
        assert(trim_trailing_slashes(prefix.drop_last()) == prefix.drop_last());
    }
}

/// With an object path as the configured prefix, every track with a nonempty
/// id is published as `<prefix without trailing slashes>/<sanitized id>`:
/// the no-track fallback is never taken.
pub proof fn lemma_track_path_direct(t: TrackView, prefix: Seq<char>)
    requires
        valid_object_path(prefix),
        t.id.len() > 0,
    ensures
        track_path_of(Some(t), trim_trailing_slashes(prefix)) == trim_trailing_slashes(prefix)
            + "/"@ + sanitized(t.id),
{
    lemma_trimmed_prefix(prefix);
    lemma_sanitized_is_element(t.id);
    lemma_extend_path(trim_trailing_slashes(prefix), sanitized(t.id));
}

/// A value in the MPRIS `Metadata` dictionary.
#[derive(Clone, Debug, PartialEq, Eq)]
pub enum MetadataValue {
    /// A D-Bus object path (`o`).
    ObjectPath(String),
    /// A string (`s`).
    Text(String),
    /// A list of strings (`as`).
    TextList(Vec<String>),
    /// A signed 64-bit integer (`x`).
    Int64(i64),
}

/// The contents of a metadata value.
pub enum MetadataValueView {
    ObjectPath(Seq<char>),
    Text(Seq<char>),
    TextList(Seq<Seq<char>>),
    Int64(i64),
}

impl View for MetadataValue {
    type V = MetadataValueView;

    open spec fn view(&self) -> MetadataValueView {
        match self {
            MetadataValue::ObjectPath(s) => MetadataValueView::ObjectPath(s@),
            MetadataValue::Text(s) => MetadataValueView::Text(s@),
            MetadataValue::TextList(v) => MetadataValueView::TextList(texts(v@)),
            MetadataValue::Int64(n) => MetadataValueView::Int64(*n),
        }
    }
}

/// One key of the MPRIS `Metadata` dictionary with its value.
#[derive(Clone, Debug, PartialEq, Eq)]
pub struct MetadataEntry {
    /// The key, such as `xesam:title`.
    pub key: String,
    /// The value stored under it.
    pub value: MetadataValue,
}

/// The keys and values of a list of entries, in order.
pub open spec fn entries_view(v: Seq<MetadataEntry>) -> Seq<(Seq<char>, MetadataValueView)> {
    v.map_values(|e: MetadataEntry| (e.key@, e.value@))
}

/// One entry when `present`, none otherwise.
pub open spec fn optional_entry(present: bool, key: Seq<char>, value: MetadataValueView) -> Seq<(Seq<char>, MetadataValueView)> {
    if present {
        seq![(key, value)]
    } else {
        Seq::empty()
    }
}

/// The MPRIS `Metadata` of a state: always the track id; with a track also
/// title, album and artists, then the artwork URL and the URL when nonempty
/// and the length in microseconds when known and nonzero.
pub open spec fn metadata_of(s: PlaybackStateView, prefix: Seq<char>) -> Seq<(Seq<char>, MetadataValueView)> {
    let id = seq![("mpris:trackid"@, MetadataValueView::ObjectPath(track_path_of(s.track, prefix)))];
    match s.track {
        None => id,
        Some(t) => id + seq![
            ("xesam:title"@, MetadataValueView::Text(t.title)),
            ("xesam:album"@, MetadataValueView::Text(t.album)),
            ("xesam:artist"@, MetadataValueView::TextList(t.artists)),
        ] + optional_entry(t.artwork_url.len() > 0, "mpris:artUrl"@, MetadataValueView::Text(t.artwork_url))
            + optional_entry(s.length() > 0, "mpris:length"@, MetadataValueView::Int64(micros_of(s.length()) as i64))
            + optional_entry(t.url.len() > 0, "xesam:url"@, MetadataValueView::Text(t.url)),
    }
}

fn entry(key: &str, value: MetadataValue) -> (e: MetadataEntry)
    ensures
        e.key@ == key@,
        e.value == value,
{
    MetadataEntry { key: key.to_owned(), value }
}

/// Builds the MPRIS `Metadata` entries of a state.
pub fn metadata_entries(state: &PlaybackState, prefix: &str) -> (entries: Vec<MetadataEntry>)
    ensures
        entries_view(entries@) == metadata_of(state@, prefix@),
{
    let mut entries: Vec<MetadataEntry> = Vec::new();
    entries.push(entry("mpris:trackid", MetadataValue::ObjectPath(track_object_path(state, prefix))));
    match &state.track {
        None => {
            assert(entries_view(entries@) =~= metadata_of(state@, prefix@));
        },
        Some(track) => {
            let ghost t = track@;
            let ghost s = state@;
            entries.push(entry("xesam:title", MetadataValue::Text(track.title.clone())));
            entries.push(entry("xesam:album", MetadataValue::Text(track.album.clone())));
            entries.push(entry("xesam:artist", MetadataValue::TextList(state.artists())));
            let ghost head = entries_view(entries@);
            assert(head =~= seq![("mpris:trackid"@, MetadataValueView::ObjectPath(track_path_of(s.track, prefix@)))]
                + seq![
                ("xesam:title"@, MetadataValueView::Text(t.title)),
                ("xesam:album"@, MetadataValueView::Text(t.album)),
                ("xesam:artist"@, MetadataValueView::TextList(t.artists)),
            ]);
            if !track.artwork_url.as_str().is_empty() {
                entries.push(entry("mpris:artUrl", MetadataValue::Text(track.artwork_url.clone())));
            }
            let ghost with_art = entries_view(entries@);
            assert(with_art =~= head + optional_entry(t.artwork_url.len() > 0, "mpris:artUrl"@, MetadataValueView::Text(t.artwork_url)));
            let length = state.length_nanos();
            if length > 0 {
                entries.push(entry("mpris:length", MetadataValue::Int64(to_micros(length))));
            }
            let ghost with_length = entries_view(entries@);
            assert(with_length =~= with_art + optional_entry(s.length() > 0, "mpris:length"@, MetadataValueView::Int64(micros_of(s.length()) as i64)));
            if !track.url.as_str().is_empty() {
                entries.push(entry("xesam:url", MetadataValue::Text(track.url.clone())));
            }
            assert(entries_view(entries@) =~= with_length + optional_entry(t.url.len() > 0, "xesam:url"@, MetadataValueView::Text(t.url)));
        },
    }
    entries
}

} // verus!

verus! {

/// A request to seek to `target` nanoseconds, dropped when it lies past a
/// known nonzero length.
pub open spec fn seek_within(length: nat, target: nat) -> Option<Event> {
    if length > 0 && target > length {
        None
    } else {
        Some(Event::SeekTo(target as u128))
    }
}

/// Validates a seek request against the published length.
pub fn checked_seek(length_nanos: u128, target_nanos: u128) -> (event: Option<Event>)
    ensures
        event == seek_within(length_nanos as nat, target_nanos as nat),
{
    if length_nanos > 0 && target_nanos > length_nanos {
        None
    } else {
        Some(Event::SeekTo(target_nanos))
    }
}

/// The event an MPRIS `SetPosition` call produces: none when it names a track
/// other than the current one, asks for a negative position, or lies past
/// the published length; otherwise a seek to the position.
pub open spec fn set_position_event(current: bool, position: i64, length: nat) -> Option<Event> {
    if !current || position < 0 {
        None
    } else {
        seek_within(length, (position * 1000) as nat)
    }
}

/// A method a D-Bus client calls on the player object.
#[derive(Clone, Debug, PartialEq, Eq)]
pub enum MprisMethod {
    /// `org.mpris.MediaPlayer2.Raise`.
    Raise,
    /// `org.mpris.MediaPlayer2.Quit`.
    Quit,
    /// `Player.Next`.
    Next,
    /// `Player.Previous`.
    Previous,
    /// `Player.Pause`.
    Pause,
    /// `Player.PlayPause`.
    PlayPause,
    /// `Player.Stop`.
    Stop,
    /// `Player.Play`.
    Play,
    /// `Player.Seek`, by an offset in microseconds.
    Seek(i64),
    /// `Player.SetPosition`: the track id object path and a position in microseconds.
    SetPosition(String, i64),
    /// `Player.OpenUri`.
    OpenUri(String),
}

/// The state behind the MPRIS interfaces: the last published snapshot and
/// the track id prefix.
pub struct MprisPlayer {
    state: PlaybackState,
    track_id_prefix: String,
}

/// The MPRIS `PlaybackStatus` value of a status.
pub open spec fn status_name(status: PlaybackStatus) -> Seq<char> {
    match status {
        PlaybackStatus::Stopped => "Stopped"@,
        PlaybackStatus::Playing => "Playing"@,
        PlaybackStatus::Paused => "Paused"@,
    }
}

impl MprisPlayer {
    /// The snapshot the interfaces report.
    pub closed spec fn state_view(&self) -> PlaybackStateView {
        self.state@
    }

    /// The prefix track ids are built under.
    pub closed spec fn prefix(&self) -> Seq<char> {
        self.track_id_prefix@
    }

    /// The player before anything is published: the default state, and the
    /// configured prefix without trailing slashes.
    pub fn new(config: &PlayerConfig) -> (player: MprisPlayer)
        ensures
            player.state_view() == default_state_view(),
            player.prefix() == trim_trailing_slashes(config.track_id_prefix@),
    {
        MprisPlayer {
            state: PlaybackState::default(),
            track_id_prefix: trim_slashes_end(config.track_id_prefix.as_str()),
        }
    }

    /// Replaces the reported snapshot.
    pub fn publish(&mut self, state: PlaybackState)
        ensures
            final(self).state_view() == state@,
            final(self).prefix() == old(self).prefix(),
    {
        self.state = state;
    }

    /// The track id object path of the current track.
    pub fn track_path(&self) -> (path: String)
        ensures
            path@ == track_path_of(self.state_view().track, self.prefix()),
    {
        track_object_path(&self.state, self.track_id_prefix.as_str())
    }

    /// The event a method call delivers to the player, if any.
    pub fn call(&self, method: MprisMethod) -> (event: Option<Event>)
        ensures
            event == (match method {
                MprisMethod::Raise => Some(Event::Raise),
                MprisMethod::Quit => Some(Event::Quit),
                MprisMethod::Next => Some(Event::Next),
                MprisMethod::Previous => Some(Event::Previous),
                MprisMethod::Pause => Some(Event::Pause),
                MprisMethod::PlayPause => Some(Event::PlayPause),
                MprisMethod::Stop => Some(Event::Stop),
                MprisMethod::Play => Some(Event::Play),
                MprisMethod::Seek(offset) => Some(Event::SeekBy(offset)),
                MprisMethod::SetPosition(track_id, position) => set_position_event(
                    track_id@ == track_path_of(self.state_view().track, self.prefix()),
                    position,
                    self.state_view().length(),
                ),
                MprisMethod::OpenUri(uri) => Some(Event::OpenUri(uri)),
            }),
    {
        match method {
            MprisMethod::Raise => Some(Event::Raise),
            MprisMethod::Quit => Some(Event::Quit),
            MprisMethod::Next => Some(Event::Next),
            MprisMethod::Previous => Some(Event::Previous),
            MprisMethod::Pause => Some(Event::Pause),
            MprisMethod::PlayPause => Some(Event::PlayPause),
            MprisMethod::Stop => Some(Event::Stop),
            MprisMethod::Play => Some(Event::Play),
            MprisMethod::Seek(offset) => Some(Event::SeekBy(offset)),
            MprisMethod::SetPosition(track_id, position) => {
                // A SetPosition naming a track that is no longer current is
                // ignored, so a click landing as the track changes does not
                // seek the new track to the old one's offset.
                let current = self.track_path();
                if !same_text(track_id.as_str(), current.as_str()) || position < 0 {
                    return None;
                }
                checked_seek(self.state.length_nanos(), position as u128 * 1000)
            },
            MprisMethod::OpenUri(uri) => Some(Event::OpenUri(uri)),
        }
    }

    /// Sets `LoopStatus` from a client: records the mode and reports it.
    pub fn set_loop_status(&mut self, value: &str) -> (event: Event)
        ensures
            event == Event::SetRepeat(repeat_of_loop_status(value@)),
            final(self).state_view() == (PlaybackStateView {
                repeat: repeat_of_loop_status(value@),
                ..old(self).state_view()
            }),
            final(self).prefix() == old(self).prefix(),
    {
        let mode = loop_status_to_repeat(value);
        self.state.repeat = mode;
        Event::SetRepeat(mode)
    }

    /// Sets `Shuffle` from a client: records it and reports it.
    pub fn set_shuffle(&mut self, value: bool) -> (event: Event)
        ensures
            event == Event::SetShuffle(value),
            final(self).state_view() == (PlaybackStateView { shuffle: value, ..old(self).state_view() }),
            final(self).prefix() == old(self).prefix(),
    {
        self.state.shuffle = value;
        Event::SetShuffle(value)
    }

    /// `PlaybackStatus`: `Stopped` without a track, else `Playing` or `Paused`.
    pub fn playback_status(&self) -> (name: &'static str)
        ensures
            name@ == status_name(self.state_view().status()),
    {
        match self.state.status() {
            PlaybackStatus::Stopped => "Stopped",
            PlaybackStatus::Playing => "Playing",
            PlaybackStatus::Paused => "Paused",
        }
    }

    /// `LoopStatus`.
    pub fn loop_status(&self) -> (name: &'static str)
        ensures
            name@ == loop_status_of(self.state_view().repeat),
    {
        repeat_to_loop_status(self.state.repeat)
    }

    /// `Shuffle`.
    pub fn shuffle(&self) -> (on: bool)
        ensures
            on == self.state_view().shuffle,
    {
        self.state.shuffle
    }

    /// `Metadata`.
    pub fn metadata(&self) -> (entries: Vec<MetadataEntry>)
        ensures
            entries_view(entries@) == metadata_of(self.state_view(), self.prefix()),
    {
        metadata_entries(&self.state, self.track_id_prefix.as_str())
    }

    /// `Position`, in microseconds, clamped to the track length.
    pub fn position(&self) -> (micros: i64)
        ensures
            micros == micros_of(self.state_view().clamped_position()),
    {
        to_micros(self.state.clamped_position_nanos())
    }

    /// `CanGoNext`.
    pub fn can_go_next(&self) -> (b: bool)
        ensures
            b == self.state_view().capabilities.can_go_next,
    {
        self.state.capabilities.can_go_next
    }

    /// `CanGoPrevious`.
    pub fn can_go_previous(&self) -> (b: bool)
        ensures
            b == self.state_view().capabilities.can_go_previous,
    {
        self.state.capabilities.can_go_previous
    }

    /// `CanPlay`: only with a track loaded.
    pub fn can_play(&self) -> (b: bool)
        ensures
            b == self.state_view().has_track(),
    {
        self.state.has_track()
    }

    /// `CanPause`: only with a track loaded.
    pub fn can_pause(&self) -> (b: bool)
        ensures
            b == self.state_view().has_track(),
    {
        self.state.has_track()
    }

    /// `CanSeek`.
    pub fn can_seek(&self) -> (b: bool)
        ensures
            b == self.state_view().capabilities.can_seek,
    {
        self.state.capabilities.can_seek
    }
}

} // verus!

verus! {

/// Which change signals one publish emits.
#[derive(Clone, Copy, Debug, PartialEq, Eq, Structural)]
pub struct MprisChanges {
    /// `Metadata` changed.
    pub metadata: bool,
    /// `PlaybackStatus` changed.
    pub playback_status: bool,
    /// `LoopStatus` changed.
    pub loop_status: bool,
    /// `Shuffle` changed.
    pub shuffle: bool,
    /// `Volume` changed.
    pub volume: bool,
    /// `CanGoNext`, `CanGoPrevious`, `CanSeek`, `CanPlay` and `CanPause` may have changed.
    pub capabilities: bool,
    /// A `Seeked` signal to emit, with the new position in microseconds.
    pub seeked: Option<i64>,
}

/// Whether the track or its length differ between two snapshots.
pub open spec fn track_changed(old: PlaybackStateView, new: PlaybackStateView) -> bool {
    old.track != new.track || old.length() != new.length()
}

/// How far the clamped position moved, in nanoseconds.
pub open spec fn drift(old: PlaybackStateView, new: PlaybackStateView) -> nat {
    if new.clamped_position() >= old.clamped_position() {
        (new.clamped_position() - old.clamped_position()) as nat
    } else {
        (old.clamped_position() - new.clamped_position()) as nat
    }
}

/// A jump of more than a second and a half is a discontinuity that clients
/// cannot extrapolate.
pub open spec fn seek_threshold() -> nat {
    1_500_000_000
}

/// The signals a publish emits. The first publish announces every property
/// and no seek; later ones announce only what changed, and a `Seeked` on a
/// track change or a jump past the threshold. `volume_differs` says whether
/// the clamped volume differs from the previous publish's.
pub open spec fn changes_between(
    previous: Option<PlaybackStateView>,
    new: PlaybackStateView,
    volume_differs: bool,
) -> MprisChanges {
    match previous {
        None => MprisChanges {
            metadata: true,
            playback_status: true,
            loop_status: true,
            shuffle: true,
            volume: true,
            capabilities: true,
            seeked: None,
        },
        Some(old) => MprisChanges {
            metadata: track_changed(old, new),
            playback_status: old.playing != new.playing || old.has_track() != new.has_track(),
            loop_status: old.repeat != new.repeat,
            shuffle: old.shuffle != new.shuffle,
            volume: volume_differs,
            capabilities: old.capabilities != new.capabilities || old.has_track() != new.has_track(),
            seeked: if track_changed(old, new) || drift(old, new) > seek_threshold() {
                Some(micros_of(new.clamped_position()) as i64)
            } else {
                None
            },
        },
    }
}

/// Diffs each published snapshot against the previous one, so republishing
/// unchanged state emits nothing.
pub struct MprisPublisher {
    last: Option<PlaybackState>,
}

/// The view of an optional snapshot.
pub open spec fn state_view_of(s: Option<PlaybackState>) -> Option<PlaybackStateView> {
    match s {
        Some(state) => Some(state@),
        None => None,
    }
}

impl MprisPublisher {
    /// The snapshot the next publish is compared against.
    pub closed spec fn last_view(&self) -> Option<PlaybackStateView> {
        state_view_of(self.last)
    }

    /// A publisher that has published nothing yet.
    pub fn new() -> (p: MprisPublisher)
        ensures
            p.last_view() is None,
    {
        MprisPublisher { last: None }
    }

    /// Records `state` as published and says which signals to emit for it.
    pub fn publish(&mut self, state: &PlaybackState, volume_differs: bool) -> (changes: MprisChanges)
        ensures
            changes == changes_between(old(self).last_view(), state@, volume_differs),
            final(self).last_view() == Some(state@),
    {
        let changes = match &self.last {
            None => MprisChanges {
                metadata: true,
                playback_status: true,
                loop_status: true,
                shuffle: true,
                volume: true,
                capabilities: true,
                seeked: None,
            },
            Some(old) => {
                let changed_track = !same_track(&old.track, &state.track) || old.length_nanos()
                    != state.length_nanos();
                let before = old.clamped_position_nanos();
                let after = state.clamped_position_nanos();
                let moved = if after >= before {
                    after - before
                } else {
                    before - after
                };
                MprisChanges {
                    metadata: changed_track,
                    playback_status: old.playing != state.playing || old.has_track()
                        != state.has_track(),
                    loop_status: old.repeat != state.repeat,
                    shuffle: old.shuffle != state.shuffle,
                    volume: volume_differs,
                    capabilities: old.capabilities != state.capabilities || old.has_track()
                        != state.has_track(),
                    seeked: if changed_track || moved > 1_500_000_000 {
                        Some(to_micros(after))
                    } else {
                        None
                    },
                }
            },
        };
        self.last = Some(state.copied());
        changes
    }
}

/// Republishing an unchanged snapshot (with an unchanged volume) emits no
/// signal at all.
pub proof fn lemma_republish_is_silent(s: PlaybackStateView)
    ensures
        changes_between(Some(s), s, false) == (MprisChanges {
            metadata: false,
            playback_status: false,
            loop_status: false,
            shuffle: false,
            volume: false,
            capabilities: false,
            seeked: None,
        }),
{
}

/// A position update within the same track that moves less than the
/// threshold emits no `Seeked`: clients extrapolate it.
pub proof fn lemma_small_drift_no_seek(old: PlaybackStateView, new: PlaybackStateView, v: bool)
    requires
        !track_changed(old, new),
        drift(old, new) <= seek_threshold(),
    ensures
        changes_between(Some(old), new, v).seeked is None,
{
}

/// A new track always announces its metadata and a `Seeked` to its position.
pub proof fn lemma_track_change_announced(old: PlaybackStateView, new: PlaybackStateView, v: bool)
    requires
        old.track != new.track,
    ensures
        changes_between(Some(old), new, v).metadata,
        changes_between(Some(old), new, v).seeked == Some(micros_of(new.clamped_position()) as i64),
{
}

} // verus!

verus! {

/// The well-known bus name a player claims.
pub fn mpris_bus_name(config: &PlayerConfig) -> (name: String)
    ensures
        name@ == "org.mpris.MediaPlayer2."@ + config.bus_name@,
{
    let mut name = "org.mpris.MediaPlayer2.".to_owned();
    name.append(config.bus_name.as_str());
    name
}

} // verus!

verus! {

/// No two entries of a list share a key.
pub open spec fn keys_distinct(m: Seq<(Seq<char>, MetadataValueView)>) -> bool {
    forall|i: int, j: int| 0 <= i < j < m.len() ==> #[trigger] m[i].0 != #[trigger] m[j].0
}

/// The `Metadata` dictionary never holds a key twice.
pub proof fn lemma_metadata_keys_distinct(s: PlaybackStateView, prefix: Seq<char>)
    ensures
        keys_distinct(metadata_of(s, prefix)),
{
    reveal_strlit("mpris:trackid");
    reveal_strlit("xesam:title");
    reveal_strlit("xesam:album");
    reveal_strlit("xesam:artist");
    reveal_strlit("mpris:artUrl");
    reveal_strlit("mpris:length");
    reveal_strlit("xesam:url");
    let k0 = "mpris:trackid"@;
    let k1 = "xesam:title"@;
    let k2 = "xesam:album"@;
    let k3 = "xesam:artist"@;
    let k4 = "mpris:artUrl"@;
    let k5 = "mpris:length"@;
    let k6 = "xesam:url"@;
    assert(k0.len() == 13 && k1.len() == 11 && k2.len() == 11 && k3.len() == 12);
    assert(k4.len() == 12 && k5.len() == 12 && k6.len() == 9);
    assert(k1[6] != k2[6]);
    assert(k3[0] != k4[0] && k3[0] != k5[0] && k4[6] != k5[6]);
    let m = metadata_of(s, prefix);
    assert forall|i: int, j: int| 0 <= i < j < m.len() implies #[trigger] m[i].0 != #[trigger] m[j].0 by {
        // Every key is one of the seven distinct literals, each used once,
        // in the fixed order below.
        match s.track {
            None => {},
            Some(t) => {
                let head = seq![(k0, MetadataValueView::ObjectPath(track_path_of(s.track, prefix)))]
                    + seq![
                    (k1, MetadataValueView::Text(t.title)),
                    (k2, MetadataValueView::Text(t.album)),
                    (k3, MetadataValueView::TextList(t.artists)),
                ];
                let a = optional_entry(t.artwork_url.len() > 0, k4, MetadataValueView::Text(t.artwork_url));
                let l = optional_entry(s.length() > 0, k5, MetadataValueView::Int64(micros_of(s.length()) as i64));
                let u = optional_entry(t.url.len() > 0, k6, MetadataValueView::Text(t.url));
                assert(m == head + a + l + u);
                assert(head.len() == 4);
                assert(forall|x: int| 0 <= x < 4 ==> head[x].0 == (if x == 0 { k0 } else if x == 1 { k1 } else if x == 2 { k2 } else { k3 }));
                if i < 4 && j < 4 {
                    assert(m[i] == head[i] && m[j] == head[j]);
                } else if i < 4 {
                    assert(m[i] == head[i]);
                    assert(m[j].0 == k4 || m[j].0 == k5 || m[j].0 == k6);
                } else {
                    let rest = a + l + u;
                    assert(m[i] == rest[i - 4] && m[j] == rest[j - 4]);
                    assert(rest.len() <= 3);
                    if a.len() == 1 {
                        assert(rest[0].0 == k4);
                    }
                    assert(rest[i - 4].0 == k4 || rest[i - 4].0 == k5 || rest[i - 4].0 == k6);
                    assert(rest[j - 4].0 == k5 || rest[j - 4].0 == k6);
                }
            },
        }
    }
}

} // verus!

verus! {

/// Whether `c` is an ASCII letter (either case) or digit, written out.
pub open spec fn letter_or_digit(c: char) -> bool {
    ('a' <= c && c <= 'z') || ('A' <= c && c <= 'Z') || ('0' <= c && c <= '9')
}

/// Sanitizing keeps the id's length, keeps every ASCII letter (upper and
/// lower case) and digit in place, and puts `_` everywhere else.
pub proof fn lemma_sanitize_keeps_letters_and_digits(id: Seq<char>)
    ensures
        sanitized(id).len() == id.len(),
        forall|i: int|
            0 <= i < id.len() ==> (if letter_or_digit(id[i]) {
                #[trigger] sanitized(id)[i] == id[i]
            } else {
                sanitized(id)[i] == '_'
            }),
{
}

/// An id made only of ASCII letters and digits is published unchanged under
/// an object-path prefix: `prefix/id`.
pub proof fn lemma_alphanumeric_id_kept(t: TrackView, prefix: Seq<char>)
    requires
        valid_object_path(prefix),
        t.id.len() > 0,
        forall|i: int| 0 <= i < t.id.len() ==> letter_or_digit(#[trigger] t.id[i]),
    ensures
        sanitized(t.id) == t.id,
        track_path_of(Some(t), trim_trailing_slashes(prefix)) == trim_trailing_slashes(prefix)
            + "/"@ + t.id,
{
    assert(sanitized(t.id) =~= t.id);
    lemma_track_path_direct(t, prefix);
}

/// What the `Metadata` dictionary holds: only the track id without a track;
/// with a track, the track id, title, album and the full artist list in that
/// order, then one entry for each of a nonempty artwork URL, a known nonzero
/// length (in rounded microseconds) and a nonempty URL.
pub proof fn lemma_metadata_contents(s: PlaybackStateView, prefix: Seq<char>)
    ensures
        metadata_of(s, prefix).len() >= 1,
        metadata_of(s, prefix)[0] == ("mpris:trackid"@, MetadataValueView::ObjectPath(
            track_path_of(s.track, prefix),
        )),
        s.track is None ==> metadata_of(s, prefix).len() == 1,
        s.track matches Some(t) ==> {
            let m = metadata_of(s, prefix);
            &&& m[1] == ("xesam:title"@, MetadataValueView::Text(t.title))
            &&& m[2] == ("xesam:album"@, MetadataValueView::Text(t.album))
            &&& m[3] == ("xesam:artist"@, MetadataValueView::TextList(t.artists))
            &&& m.len() == 4 + (if t.artwork_url.len() > 0 { 1int } else { 0 }) + (if s.length()
                > 0 { 1int } else { 0 }) + (if t.url.len() > 0 { 1int } else { 0 })
            &&& t.artwork_url.len() > 0 ==> m[4] == ("mpris:artUrl"@, MetadataValueView::Text(
                t.artwork_url,
            ))
            &&& s.length() > 0 ==> m[4 + (if t.artwork_url.len() > 0 { 1int } else { 0 })] == (
                "mpris:length"@,
                MetadataValueView::Int64(
                    if (s.length() + 500) / 1000 > i64::MAX {
                        i64::MAX
                    } else {
                        ((s.length() + 500) / 1000) as i64
                    },
                ),
            )
            &&& t.url.len() > 0 ==> m[m.len() - 1] == ("xesam:url"@, MetadataValueView::Text(t.url))
        },
{
}

/// Each change signal of a publish is raised exactly when what it reports
/// differs from the previous snapshot: `Metadata` on a new track or length,
/// `PlaybackStatus` on playing or track presence, `LoopStatus` on repeat,
/// `Shuffle` on shuffle, the `Can*` properties on any capability or on track
/// presence (which drives `CanPlay` and `CanPause`); `Seeked` carries the new
/// clamped position and is sent on a track change or a jump of more than
/// 1.5 s.
pub proof fn lemma_publish_signals(old: PlaybackStateView, new: PlaybackStateView, v: bool)
    ensures
        ({
            let c = changes_between(Some(old), new, v);
            let moved = new.clamped_position() - old.clamped_position();
            let jumped = moved > 1_500_000_000 || moved < -1_500_000_000;
            let new_track = old.track != new.track || old.length() != new.length();
            &&& c.metadata == new_track
            &&& c.playback_status == (old.playing != new.playing || (old.track is Some) != (
            new.track is Some))
            &&& c.loop_status == (old.repeat != new.repeat)
            &&& c.shuffle == (old.shuffle != new.shuffle)
            &&& c.volume == v
            &&& c.capabilities == (old.capabilities.can_go_next != new.capabilities.can_go_next
                || old.capabilities.can_go_previous != new.capabilities.can_go_previous
                || old.capabilities.can_seek != new.capabilities.can_seek || (old.track is Some)
                != (new.track is Some))
            &&& (c.seeked is Some) == (new_track || jumped)
            &&& c.seeked matches Some(p) ==> p == micros_of(new.clamped_position())
        }),
{
}

/// Loading or unloading a track always re-announces the capabilities, since
/// `CanPlay` and `CanPause` follow whether a track is loaded.
pub proof fn lemma_track_presence_announces_capabilities(
    old: PlaybackStateView,
    new: PlaybackStateView,
    v: bool,
)
    requires
        (old.track is Some) != (new.track is Some),
    ensures
        changes_between(Some(old), new, v).capabilities,
        changes_between(Some(old), new, v).playback_status,
{
}

} // verus!
