use playwire::error::Error;
use playwire::state::{
    to_micros, Capabilities, PlaybackState, PlaybackStatus, Repeat, Track,
};

fn track(id: &str, artists: &[&str]) -> Track {
    Track {
        id: id.to_string(),
        title: "When The Sun Hits".to_string(),
        artists: artists.iter().map(|a| a.to_string()).collect(),
        album: "Souvlaki".to_string(),
        artwork_url: "https://example.com/art.jpg".to_string(),
        url: "https://example.com/track/1234".to_string(),
    }
}

#[test]
fn primary_artist_is_first_credited() {
    let t = track("1", &["Slowdive", "Neil Halstead"]);
    assert_eq!(t.primary_artist(), "Slowdive");
}

#[test]
fn primary_artist_empty_without_artists() {
    let t = track("1", &[]);
    assert_eq!(t.primary_artist(), "");
    assert_eq!(Track::default().primary_artist(), "");
}

#[test]
fn capabilities_default_enables_everything() {
    let c = Capabilities::default();
    assert!(c.can_go_next && c.can_go_previous && c.can_seek);
}

#[test]
fn repeat_default_is_off() {
    assert_eq!(Repeat::default(), Repeat::Off);
}

#[test]
fn default_state_is_empty() {
    let s = PlaybackState::default();
    assert!(!s.has_track());
    assert!(!s.playing);
    assert_eq!(s.position_nanos, 0);
    assert_eq!(s.duration_nanos, None);
    assert_eq!(s.capabilities, Capabilities::default());
    assert_eq!(s.status(), PlaybackStatus::Stopped);
}

#[test]
fn status_follows_track_and_playing() {
    let mut s = PlaybackState::default();
    s.playing = true;
    assert_eq!(s.status(), PlaybackStatus::Stopped);
    s.track = Some(track("1", &["A"]));
    assert_eq!(s.status(), PlaybackStatus::Playing);
    s.playing = false;
    assert_eq!(s.status(), PlaybackStatus::Paused);
}

#[test]
fn position_is_clamped_to_known_length() {
    let mut s = PlaybackState::default();
    s.position_nanos = 300_000_000_000;
    s.duration_nanos = Some(290_000_000_000);
    assert_eq!(s.clamped_position_nanos(), 290_000_000_000);
    s.duration_nanos = None;
    assert_eq!(s.clamped_position_nanos(), 300_000_000_000);
    s.duration_nanos = Some(0);
    assert_eq!(s.clamped_position_nanos(), 300_000_000_000);
    s.duration_nanos = Some(400_000_000_000);
    assert_eq!(s.clamped_position_nanos(), 300_000_000_000);
}

#[test]
fn length_is_zero_when_unknown() {
    let mut s = PlaybackState::default();
    assert_eq!(s.length_nanos(), 0);
    s.duration_nanos = Some(42);
    assert_eq!(s.length_nanos(), 42);
}

#[test]
fn artists_of_state() {
    let mut s = PlaybackState::default();
    assert!(s.artists().is_empty());
    s.track = Some(track("1", &["A", "B"]));
    assert_eq!(s.artists(), vec!["A".to_string(), "B".to_string()]);
}

#[test]
fn micros_round_half_up_and_saturate() {
    assert_eq!(to_micros(0), 0);
    assert_eq!(to_micros(1_499), 1);
    assert_eq!(to_micros(1_500), 2);
    assert_eq!(to_micros(290_000_000_000), 290_000_000);
    assert_eq!(to_micros(u128::MAX), i64::MAX);
}

#[test]
fn copies_keep_texts() {
    let t = track("abc", &["X"]);
    assert_eq!(t.copied(), t);
    assert!(t.same_as(&t.copied()));
    let mut other = t.clone();
    other.artists.push("Y".to_string());
    assert!(!t.same_as(&other));
}

#[test]
fn error_messages() {
    assert_eq!(
        Error::Unavailable("session bus: gone".to_string()).message(),
        "media controls unavailable: session bus: gone"
    );
    assert_eq!(Error::Publish("x".to_string()).message(), "failed to publish state: x");
    assert_eq!(Error::Config("y".to_string()).message(), "invalid configuration: y");
    assert_eq!(
        Error::Unsupported.message(),
        "media controls are not supported on this platform"
    );
}
