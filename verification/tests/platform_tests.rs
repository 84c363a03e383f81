use playwire::cache::MetadataCache;
use playwire::config::PlayerConfig;
use playwire::error::Error;
use playwire::now_playing::{
    command_event, now_playing_info, now_playing_playback, repeat_from_type, RemoteCommand,
    RepeatType,
};
use playwire::smtc::{
    button_event, position_request, repeat_from_winrt, repeat_to_winrt, smtc_controls,
    smtc_display, smtc_window, AutoRepeatMode, TransportButton,
};
use playwire::state::{Event, PlaybackState, PlaybackStatus, Repeat, Track};

fn state(artists: &[&str]) -> PlaybackState {
    PlaybackState {
        track: Some(Track {
            id: "1".to_string(),
            title: "Alison".to_string(),
            artists: artists.iter().map(|a| a.to_string()).collect(),
            album: "Souvlaki".to_string(),
            artwork_url: "https://example.com/art.jpg".to_string(),
            url: String::new(),
        }),
        playing: true,
        position_nanos: 12_000_000_000,
        duration_nanos: Some(231_000_000_000),
        ..PlaybackState::default()
    }
}

#[test]
fn winrt_repeat_round_trip() {
    for mode in [Repeat::Off, Repeat::One, Repeat::All] {
        assert_eq!(repeat_from_winrt(repeat_to_winrt(mode)), mode);
    }
    assert_eq!(repeat_to_winrt(Repeat::All), AutoRepeatMode::List);
    assert_eq!(repeat_from_winrt(AutoRepeatMode::Off), Repeat::Off);
}

#[test]
fn buttons() {
    assert_eq!(button_event(TransportButton::Play), Some(Event::Play));
    assert_eq!(button_event(TransportButton::Pause), Some(Event::Pause));
    assert_eq!(button_event(TransportButton::Stop), Some(Event::Stop));
    assert_eq!(button_event(TransportButton::Next), Some(Event::Next));
    assert_eq!(button_event(TransportButton::Previous), Some(Event::Previous));
    assert_eq!(button_event(TransportButton::FastForward), Some(Event::SeekBy(10_000_000)));
    assert_eq!(button_event(TransportButton::Rewind), Some(Event::SeekBy(-10_000_000)));
    assert_eq!(button_event(TransportButton::Record), None);
    assert_eq!(button_event(TransportButton::ChannelUp), None);
}

#[test]
fn position_requests() {
    assert_eq!(position_request(50, 10_000), Some(Event::SeekTo(5_000)));
    assert_eq!(position_request(-1, 10_000), None);
    assert_eq!(position_request(101, 10_000), None);
    assert_eq!(position_request(101, 0), Some(Event::SeekTo(10_100)));
    // A negative time converts, as WinRT's conversion does, to a huge one.
    assert_eq!(position_request(-1, 0), Some(Event::SeekTo((u64::MAX - 99) as u128)));
}

#[test]
fn window_is_required() {
    assert_eq!(
        smtc_window(&PlayerConfig::new("X")),
        Err(Error::Config("Windows media controls require PlayerConfig::hwnd".to_string()))
    );
    assert_eq!(smtc_window(&PlayerConfig::new("X").hwnd(99)), Ok(99));
}

#[test]
fn smtc_settings() {
    let mut s = state(&["A"]);
    s.capabilities.can_go_previous = false;
    s.repeat = Repeat::One;
    s.position_nanos = 500_000_000_000;
    let c = smtc_controls(&s);
    assert_eq!(c.status, PlaybackStatus::Playing);
    assert!(c.play_enabled && c.pause_enabled && c.stop_enabled);
    assert!(c.next_enabled && !c.previous_enabled);
    assert!(c.fast_forward_enabled && c.rewind_enabled);
    assert_eq!(c.repeat, AutoRepeatMode::Track);
    assert_eq!(c.end_nanos, 231_000_000_000);
    assert_eq!(c.position_nanos, 231_000_000_000);
    let c = smtc_controls(&PlaybackState::default());
    assert_eq!(c.status, PlaybackStatus::Stopped);
    assert!(!c.play_enabled && !c.pause_enabled && !c.stop_enabled);
    assert_eq!(c.end_nanos, 0);
}

#[test]
fn smtc_display_values() {
    let d = smtc_display(&state(&["A", "B"]));
    assert_eq!(d.title, "Alison");
    assert_eq!(d.artist, "A");
    assert_eq!(d.album, "Souvlaki");
    assert_eq!(d.thumbnail, Some("https://example.com/art.jpg".to_string()));
    let d = smtc_display(&PlaybackState::default());
    assert_eq!(d.title, "Orchard");
    assert_eq!(d.artist, "");
    assert_eq!(d.thumbnail, None);
}

#[test]
fn metadata_cache() {
    let mut cache = MetadataCache::new();
    let s = state(&["A"]);
    assert!(cache.is_stale(&s));
    cache.record(&s);
    assert!(!cache.is_stale(&s));
    let mut moved = s.clone();
    moved.position_nanos = 99;
    moved.playing = false;
    assert!(!cache.is_stale(&moved));
    let mut longer = s.clone();
    longer.duration_nanos = Some(1);
    assert!(cache.is_stale(&longer));
    assert!(cache.is_stale(&PlaybackState::default()));
}

#[test]
fn commands() {
    assert_eq!(command_event(RemoteCommand::Play), Event::Play);
    assert_eq!(command_event(RemoteCommand::Pause), Event::Pause);
    assert_eq!(command_event(RemoteCommand::TogglePlayPause), Event::PlayPause);
    assert_eq!(command_event(RemoteCommand::NextTrack), Event::Next);
    assert_eq!(command_event(RemoteCommand::PreviousTrack), Event::Previous);
    assert_eq!(command_event(RemoteCommand::Stop), Event::Stop);
    assert_eq!(repeat_from_type(RepeatType::One), Repeat::One);
    assert_eq!(repeat_from_type(RepeatType::All), Repeat::All);
    assert_eq!(repeat_from_type(RepeatType::Off), Repeat::Off);
}

#[test]
fn now_playing_values() {
    let info = now_playing_info(&state(&["Slowdive", "Neil Halstead"]));
    assert_eq!(info.title, "Alison");
    assert_eq!(info.artist, "Slowdive");
    assert_eq!(info.album, "Souvlaki");
    assert_eq!(info.duration_nanos, 231_000_000_000);
    assert_eq!(info.artwork_url, Some("https://example.com/art.jpg".to_string()));
    let info = now_playing_info(&PlaybackState::default());
    assert_eq!(info.title, "");
    assert_eq!(info.artist, "");
    assert_eq!(info.artwork_url, None);
    let p = now_playing_playback(&state(&[]));
    assert_eq!(p.status, PlaybackStatus::Playing);
    assert_eq!(p.elapsed_nanos, 12_000_000_000);
    assert!(p.advancing);
}
