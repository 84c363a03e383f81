use playwire::config::PlayerConfig;

#[test]
fn default_config() {
    let c = PlayerConfig::default();
    assert_eq!(c.identity, "Media Player");
    assert_eq!(c.bus_name, "MediaPlayer");
    assert_eq!(c.desktop_entry, "");
    assert_eq!(c.track_id_prefix, "/org/mpris/MediaPlayer2/Track");
    assert_eq!(c.supported_uri_schemes, vec!["http".to_string(), "https".to_string()]);
    assert!(c.supported_mime_types.is_empty());
    assert_eq!(c.hwnd, None);
}

#[test]
fn new_sets_identity_and_bus_name() {
    let c = PlayerConfig::new("Fauxplayer");
    assert_eq!(c.identity, "Fauxplayer");
    assert_eq!(c.bus_name, "Fauxplayer");
    assert_eq!(c.track_id_prefix, "/org/mpris/MediaPlayer2/Track");
    assert_eq!(c.hwnd, None);
}

#[test]
fn builders_set_one_field() {
    let c = PlayerConfig::new("Fauxplayer")
        .desktop_entry("com.example.fauxplayer")
        .track_id_prefix("/com/example/fauxplayer/track")
        .supported_uri_schemes(vec!["file".to_string()])
        .supported_mime_types(vec!["audio/flac".to_string()])
        .hwnd(0x1234);
    assert_eq!(c.identity, "Fauxplayer");
    assert_eq!(c.bus_name, "Fauxplayer");
    assert_eq!(c.desktop_entry, "com.example.fauxplayer");
    assert_eq!(c.track_id_prefix, "/com/example/fauxplayer/track");
    assert_eq!(c.supported_uri_schemes, vec!["file".to_string()]);
    assert_eq!(c.supported_mime_types, vec!["audio/flac".to_string()]);
    assert_eq!(c.hwnd, Some(0x1234));
}

#[test]
fn copied_config_is_equal() {
    let c = PlayerConfig::new("A").hwnd(7);
    let d = c.copied();
    assert_eq!(d.identity, c.identity);
    assert_eq!(d.supported_uri_schemes, c.supported_uri_schemes);
    assert_eq!(d.hwnd, Some(7));
}
