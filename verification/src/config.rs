//! How a player identifies itself to the OS.

use vstd::prelude::*;
use vstd::string::*;
use crate::state::{copy_texts, texts};

verus! {

/// Identity and per-platform requirements, supplied once when the controls are
/// created.
#[derive(Clone, Debug)]
pub struct PlayerConfig {
    /// Human-readable name shown to users. MPRIS `Identity`.
    pub identity: String,
    /// The last component of the D-Bus name: `Foo` becomes
    /// `org.mpris.MediaPlayer2.Foo`. Linux only.
    pub bus_name: String,
    /// The `.desktop` file's basename without the extension. Linux only.
    pub desktop_entry: String,
    /// Object-path prefix for `mpris:trackid`; the track id is appended.
    pub track_id_prefix: String,
    /// MPRIS `SupportedUriSchemes`.
    pub supported_uri_schemes: Vec<String>,
    /// MPRIS `SupportedMimeTypes`.
    pub supported_mime_types: Vec<String>,
    /// The window to attach SMTC to. Required on Windows, ignored elsewhere.
    pub hwnd: Option<u64>,
}

/// The URI schemes a default config advertises.
pub open spec fn default_uri_schemes() -> Seq<Seq<char>> {
    seq!["http"@, "https"@]
}

impl Default for PlayerConfig {
    fn default() -> (c: PlayerConfig)
        ensures
            c.identity@ == "Media Player"@,
            c.bus_name@ == "MediaPlayer"@,
            c.desktop_entry@ == Seq::<char>::empty(),
            c.track_id_prefix@ == "/org/mpris/MediaPlayer2/Track"@,
            texts(c.supported_uri_schemes@) == default_uri_schemes(),
            c.supported_mime_types@.len() == 0,
            c.hwnd is None,
    {
        let mut schemes: Vec<String> = Vec::new();
        schemes.push("http".to_owned());
        schemes.push("https".to_owned());
        assert(texts(schemes@) =~= default_uri_schemes());
        PlayerConfig {
            identity: "Media Player".to_owned(),
            bus_name: "MediaPlayer".to_owned(),
            desktop_entry: String::new(),
            track_id_prefix: "/org/mpris/MediaPlayer2/Track".to_owned(),
            supported_uri_schemes: schemes,
            supported_mime_types: Vec::new(),
            hwnd: None,
        }
    }
}

impl PlayerConfig {
    /// A config with `identity` and `bus_name` both set to `name`, and every
    /// other field defaulted.
    pub fn new(name: &str) -> (c: PlayerConfig)
        ensures
            c.identity@ == name@,
            c.bus_name@ == name@,
            c.desktop_entry@ == Seq::<char>::empty(),
            c.track_id_prefix@ == "/org/mpris/MediaPlayer2/Track"@,
            texts(c.supported_uri_schemes@) == default_uri_schemes(),
            c.supported_mime_types@.len() == 0,
            c.hwnd is None,
    {
        let defaults = PlayerConfig::default();
        PlayerConfig { identity: name.to_owned(), bus_name: name.to_owned(), ..defaults }
    }

    /// Sets the `.desktop` file basename, without the extension. Linux only.
    pub fn desktop_entry(self, entry: &str) -> (c: PlayerConfig)
        ensures
            c.desktop_entry@ == entry@,
            c.identity == self.identity,
            c.bus_name == self.bus_name,
            c.track_id_prefix == self.track_id_prefix,
            c.supported_uri_schemes == self.supported_uri_schemes,
            c.supported_mime_types == self.supported_mime_types,
            c.hwnd == self.hwnd,
    {
        PlayerConfig { desktop_entry: entry.to_owned(), ..self }
    }

    /// Sets the object-path prefix for `mpris:trackid`. Linux only.
    pub fn track_id_prefix(self, prefix: &str) -> (c: PlayerConfig)
        ensures
            c.track_id_prefix@ == prefix@,
            c.identity == self.identity,
            c.bus_name == self.bus_name,
            c.desktop_entry == self.desktop_entry,
            c.supported_uri_schemes == self.supported_uri_schemes,
            c.supported_mime_types == self.supported_mime_types,
            c.hwnd == self.hwnd,
    {
        PlayerConfig { track_id_prefix: prefix.to_owned(), ..self }
    }

    /// Sets the URI schemes the player can open, published as MPRIS
    /// `SupportedUriSchemes`.
    pub fn supported_uri_schemes(self, schemes: Vec<String>) -> (c: PlayerConfig)
        ensures
            c.supported_uri_schemes == schemes,
            c.identity == self.identity,
            c.bus_name == self.bus_name,
            c.desktop_entry == self.desktop_entry,
            c.track_id_prefix == self.track_id_prefix,
            c.supported_mime_types == self.supported_mime_types,
            c.hwnd == self.hwnd,
    {
        PlayerConfig { supported_uri_schemes: schemes, ..self }
    }

    /// Sets the MIME types the player can handle, published as MPRIS
    /// `SupportedMimeTypes`.
    pub fn supported_mime_types(self, types: Vec<String>) -> (c: PlayerConfig)
        ensures
            c.supported_mime_types == types,
            c.identity == self.identity,
            c.bus_name == self.bus_name,
            c.desktop_entry == self.desktop_entry,
            c.track_id_prefix == self.track_id_prefix,
            c.supported_uri_schemes == self.supported_uri_schemes,
            c.hwnd == self.hwnd,
    {
        PlayerConfig { supported_mime_types: types, ..self }
    }

    /// Sets the window SMTC attaches to. Required on Windows, ignored elsewhere.
    pub fn hwnd(self, hwnd: u64) -> (c: PlayerConfig)
        ensures
            c.hwnd == Some(hwnd),
            c.identity == self.identity,
            c.bus_name == self.bus_name,
            c.desktop_entry == self.desktop_entry,
            c.track_id_prefix == self.track_id_prefix,
            c.supported_uri_schemes == self.supported_uri_schemes,
            c.supported_mime_types == self.supported_mime_types,
    {
        PlayerConfig { hwnd: Some(hwnd), ..self }
    }

    /// A copy of this config with the same values.
    pub fn copied(&self) -> (c: PlayerConfig)
        ensures
            c.identity@ == self.identity@,
            c.bus_name@ == self.bus_name@,
            c.desktop_entry@ == self.desktop_entry@,
            c.track_id_prefix@ == self.track_id_prefix@,
            texts(c.supported_uri_schemes@) == texts(self.supported_uri_schemes@),
            texts(c.supported_mime_types@) == texts(self.supported_mime_types@),
            c.hwnd == self.hwnd,
    {
        PlayerConfig {
            identity: self.identity.clone(),
            bus_name: self.bus_name.clone(),
            desktop_entry: self.desktop_entry.clone(),
            track_id_prefix: self.track_id_prefix.clone(),
            supported_uri_schemes: copy_texts(&self.supported_uri_schemes),
            supported_mime_types: copy_texts(&self.supported_mime_types),
            hwnd: self.hwnd,
        }
    }
}

} // verus!
