//! Everything that can go wrong talking to the platform's media service.

use vstd::prelude::*;
use vstd::string::*;

verus! {

/// Everything that can go wrong talking to the platform's media service.
#[derive(Clone, Debug, PartialEq, Eq)]
pub enum Error {
    /// The platform's media service could not be reached.
    Unavailable(String),
    /// Publishing state or metadata failed.
    Publish(String),
    /// A required piece of configuration was missing or malformed.
    Config(String),
    /// This platform has no media-controls integration.
    Unsupported,
}

/// The human-readable text of an error.
pub open spec fn message_of(e: Error) -> Seq<char> {
    match e {
        Error::Unavailable(detail) => "media controls unavailable: "@ + detail@,
        Error::Publish(detail) => "failed to publish state: "@ + detail@,
        Error::Config(detail) => "invalid configuration: "@ + detail@,
        Error::Unsupported => "media controls are not supported on this platform"@,
    }
}

impl Error {
    /// The human-readable text of this error, as its `Display` shows it.
    pub fn message(&self) -> (text: String)
        ensures
            text@ == message_of(*self),
    {
        match self {
            Error::Unavailable(detail) => {
                let mut text = "media controls unavailable: ".to_owned();
                text.append(detail.as_str());
                text
            },
            Error::Publish(detail) => {
                let mut text = "failed to publish state: ".to_owned();
                text.append(detail.as_str());
                text
            },
            Error::Config(detail) => {
                let mut text = "invalid configuration: ".to_owned();
                text.append(detail.as_str());
                text
            },
            Error::Unsupported => "media controls are not supported on this platform".to_owned(),
        }
    }
}

} // verus!
