use playwire::config::PlayerConfig;
use playwire::mpris::{
    checked_seek, loop_status_to_repeat, metadata_entries, mpris_bus_name, repeat_to_loop_status,
    sanitize_id, track_object_path, MetadataEntry, MetadataValue, MprisMethod, MprisPlayer,
    MprisPublisher,
};
use playwire::state::{Event, PlaybackState, Repeat, Track};
use playwire::text::trim_slashes_end;

const NO_TRACK: &str = "/org/mpris/MediaPlayer2/TrackList/NoTrack";
const PREFIX: &str = "/org/mpris/MediaPlayer2/Track";

fn track(id: &str) -> Track {
    Track {
        id: id.to_string(),
        title: "When The Sun Hits".to_string(),
        artists: vec!["Slowdive".to_string()],
        album: "Souvlaki".to_string(),
        artwork_url: "https://example.com/art.jpg".to_string(),
        url: "https://example.com/track/1234".to_string(),
    }
}

fn playing(id: &str, position_secs: u128, duration_secs: Option<u128>) -> PlaybackState {
    PlaybackState {
        track: Some(track(id)),
        playing: true,
        position_nanos: position_secs * 1_000_000_000,
        duration_nanos: duration_secs.map(|d| d * 1_000_000_000),
        ..PlaybackState::default()
    }
}

fn entry(key: &str, value: MetadataValue) -> MetadataEntry {
    MetadataEntry { key: key.to_string(), value }
}

#[test]
fn loop_status_names() {
    assert_eq!(repeat_to_loop_status(Repeat::Off), "None");
    assert_eq!(repeat_to_loop_status(Repeat::One), "Track");
    assert_eq!(repeat_to_loop_status(Repeat::All), "Playlist");
    assert_eq!(loop_status_to_repeat("Track"), Repeat::One);
    assert_eq!(loop_status_to_repeat("Playlist"), Repeat::All);
    assert_eq!(loop_status_to_repeat("None"), Repeat::Off);
    assert_eq!(loop_status_to_repeat("track"), Repeat::Off);
    assert_eq!(loop_status_to_repeat(""), Repeat::Off);
}

#[test]
fn loop_status_round_trip() {
    for mode in [Repeat::Off, Repeat::One, Repeat::All] {
        assert_eq!(loop_status_to_repeat(repeat_to_loop_status(mode)), mode);
    }
}

#[test]
fn sanitize_replaces_non_alphanumerics() {
    assert_eq!(sanitize_id("when-the-sun hits"), "when_the_sun_hits");
    assert_eq!(sanitize_id("abc123"), "abc123");
    assert_eq!(sanitize_id("é/x"), "__x");
}

#[test]
fn track_path_with_prefix() {
    let s = playing("1234", 0, None);
    assert_eq!(track_object_path(&s, PREFIX), "/org/mpris/MediaPlayer2/Track/1234");
    let s = playing("when-the-sun-hits", 0, None);
    assert_eq!(track_object_path(&s, ""), "/when_the_sun_hits");
}

#[test]
fn track_path_falls_back_to_no_track() {
    assert_eq!(track_object_path(&PlaybackState::default(), PREFIX), NO_TRACK);
    assert_eq!(track_object_path(&playing("", 0, None), PREFIX), NO_TRACK);
    // The path check rejects prefixes that are not object paths.
    assert_eq!(track_object_path(&playing("1", 0, None), "no slash"), NO_TRACK);
    assert_eq!(track_object_path(&playing("1", 0, None), "/double//slash"), NO_TRACK);
    assert_eq!(track_object_path(&playing("1", 0, None), "/"), NO_TRACK);
}

#[test]
fn trimmed_prefix() {
    assert_eq!(trim_slashes_end("/a/b//"), "/a/b");
    assert_eq!(trim_slashes_end("/"), "");
    assert_eq!(trim_slashes_end("/a"), "/a");
}

#[test]
fn player_trims_prefix_so_root_prefix_works() {
    let mut player = MprisPlayer::new(&PlayerConfig::new("X").track_id_prefix("/"));
    player.publish(playing("7", 0, None));
    assert_eq!(player.track_path(), "/7");
}

#[test]
fn metadata_without_track_is_only_trackid() {
    let entries = metadata_entries(&PlaybackState::default(), PREFIX);
    assert_eq!(
        entries,
        vec![entry("mpris:trackid", MetadataValue::ObjectPath(NO_TRACK.to_string()))]
    );
}

#[test]
fn metadata_with_track() {
    let entries = metadata_entries(&playing("1234", 42, Some(290)), PREFIX);
    assert_eq!(
        entries,
        vec![
            entry(
                "mpris:trackid",
                MetadataValue::ObjectPath("/org/mpris/MediaPlayer2/Track/1234".to_string())
            ),
            entry("xesam:title", MetadataValue::Text("When The Sun Hits".to_string())),
            entry("xesam:album", MetadataValue::Text("Souvlaki".to_string())),
            entry("xesam:artist", MetadataValue::TextList(vec!["Slowdive".to_string()])),
            entry("mpris:artUrl", MetadataValue::Text("https://example.com/art.jpg".to_string())),
            entry("mpris:length", MetadataValue::Int64(290_000_000)),
            entry("xesam:url", MetadataValue::Text("https://example.com/track/1234".to_string())),
        ]
    );
}

#[test]
fn metadata_omits_empty_optional_fields() {
    let mut s = playing("1", 0, None);
    if let Some(t) = s.track.as_mut() {
        t.artwork_url.clear();
        t.url.clear();
    }
    let keys: Vec<String> = metadata_entries(&s, PREFIX).into_iter().map(|e| e.key).collect();
    assert_eq!(keys, vec!["mpris:trackid", "xesam:title", "xesam:album", "xesam:artist"]);
}

#[test]
fn player_methods_map_to_events() {
    let player = MprisPlayer::new(&PlayerConfig::new("X"));
    assert_eq!(player.call(MprisMethod::Raise), Some(Event::Raise));
    assert_eq!(player.call(MprisMethod::Quit), Some(Event::Quit));
    assert_eq!(player.call(MprisMethod::Next), Some(Event::Next));
    assert_eq!(player.call(MprisMethod::Previous), Some(Event::Previous));
    assert_eq!(player.call(MprisMethod::Pause), Some(Event::Pause));
    assert_eq!(player.call(MprisMethod::PlayPause), Some(Event::PlayPause));
    assert_eq!(player.call(MprisMethod::Stop), Some(Event::Stop));
    assert_eq!(player.call(MprisMethod::Play), Some(Event::Play));
    assert_eq!(player.call(MprisMethod::Seek(-2_500_000)), Some(Event::SeekBy(-2_500_000)));
    assert_eq!(
        player.call(MprisMethod::OpenUri("file:///a.flac".to_string())),
        Some(Event::OpenUri("file:///a.flac".to_string()))
    );
}

#[test]
fn set_position_is_validated() {
    let mut player = MprisPlayer::new(&PlayerConfig::new("X"));
    player.publish(playing("1234", 10, Some(290)));
    let current = "/org/mpris/MediaPlayer2/Track/1234".to_string();
    assert_eq!(
        player.call(MprisMethod::SetPosition(current.clone(), 42_000_000)),
        Some(Event::SeekTo(42_000_000_000))
    );
    // A stale track id is ignored.
    assert_eq!(
        player.call(MprisMethod::SetPosition("/org/mpris/MediaPlayer2/Track/99".to_string(), 1)),
        None
    );
    assert_eq!(player.call(MprisMethod::SetPosition(current.clone(), -1)), None);
    assert_eq!(player.call(MprisMethod::SetPosition(current.clone(), 291_000_000)), None);
    assert_eq!(
        player.call(MprisMethod::SetPosition(current, 290_000_000)),
        Some(Event::SeekTo(290_000_000_000))
    );
}

#[test]
fn set_position_without_length_is_unbounded() {
    let mut player = MprisPlayer::new(&PlayerConfig::new("X"));
    player.publish(playing("1", 0, None));
    assert_eq!(
        player.call(MprisMethod::SetPosition("/org/mpris/MediaPlayer2/Track/1".to_string(), 5_000_000_000)),
        Some(Event::SeekTo(5_000_000_000_000))
    );
}

#[test]
fn checked_seek_limits() {
    assert_eq!(checked_seek(10, 11), None);
    assert_eq!(checked_seek(10, 10), Some(Event::SeekTo(10)));
    assert_eq!(checked_seek(0, 11), Some(Event::SeekTo(11)));
}

#[test]
fn setters_record_and_report() {
    let mut player = MprisPlayer::new(&PlayerConfig::new("X"));
    assert_eq!(player.set_loop_status("Playlist"), Event::SetRepeat(Repeat::All));
    assert_eq!(player.loop_status(), "Playlist");
    assert_eq!(player.set_loop_status("bogus"), Event::SetRepeat(Repeat::Off));
    assert_eq!(player.loop_status(), "None");
    assert_eq!(player.set_shuffle(true), Event::SetShuffle(true));
    assert!(player.shuffle());
}

#[test]
fn properties_follow_state() {
    let mut player = MprisPlayer::new(&PlayerConfig::new("X"));
    assert_eq!(player.playback_status(), "Stopped");
    assert!(!player.can_play() && !player.can_pause());
    assert!(player.can_go_next() && player.can_go_previous() && player.can_seek());
    let mut s = playing("1", 300, Some(290));
    s.capabilities.can_seek = false;
    player.publish(s);
    assert_eq!(player.playback_status(), "Playing");
    assert!(player.can_play() && player.can_pause());
    assert!(!player.can_seek());
    assert_eq!(player.position(), 290_000_000);
    let mut s = playing("1", 3, Some(290));
    s.playing = false;
    player.publish(s);
    assert_eq!(player.playback_status(), "Paused");
    assert_eq!(player.position(), 3_000_000);
    assert_eq!(player.metadata().len(), 7);
}

#[test]
fn first_publish_announces_everything() {
    let mut p = MprisPublisher::new();
    let c = p.publish(&playing("1", 0, Some(100)), false);
    assert!(c.metadata && c.playback_status && c.loop_status && c.shuffle && c.volume && c.capabilities);
    assert_eq!(c.seeked, None);
}

#[test]
fn republishing_unchanged_state_is_silent() {
    let mut p = MprisPublisher::new();
    let s = playing("1", 5, Some(100));
    p.publish(&s, false);
    let c = p.publish(&s, false);
    assert!(!c.metadata && !c.playback_status && !c.loop_status && !c.shuffle && !c.volume && !c.capabilities);
    assert_eq!(c.seeked, None);
}

#[test]
fn position_ticks_do_not_seek() {
    let mut p = MprisPublisher::new();
    p.publish(&playing("1", 5, Some(100)), false);
    let c = p.publish(&playing("1", 6, Some(100)), false);
    assert_eq!(c.seeked, None);
    assert!(!c.metadata);
}

#[test]
fn jumps_and_track_changes_seek() {
    let mut p = MprisPublisher::new();
    p.publish(&playing("1", 5, Some(100)), false);
    let c = p.publish(&playing("1", 50, Some(100)), false);
    assert_eq!(c.seeked, Some(50_000_000));
    let c = p.publish(&playing("2", 0, Some(100)), false);
    assert!(c.metadata);
    assert_eq!(c.seeked, Some(0));
    let c = p.publish(&playing("2", 0, Some(120)), false);
    assert!(c.metadata);
    assert_eq!(c.seeked, Some(0));
}

#[test]
fn individual_changes_are_reported() {
    let mut p = MprisPublisher::new();
    let s = playing("1", 5, Some(100));
    p.publish(&s, false);
    let mut t = s.clone();
    t.playing = false;
    t.repeat = Repeat::One;
    t.shuffle = true;
    t.capabilities.can_go_next = false;
    let c = p.publish(&t, true);
    assert!(c.playback_status && c.loop_status && c.shuffle && c.capabilities && c.volume);
    assert!(!c.metadata);
    assert_eq!(c.seeked, None);
}

#[test]
fn bus_name() {
    assert_eq!(mpris_bus_name(&PlayerConfig::new("Fauxplayer")), "org.mpris.MediaPlayer2.Fauxplayer");
}
