//! Error taxonomy of the engine.
//!
//! Faults that reach the library from the outside (transport, storage,
//! serialization) arrive already reduced to their human-readable message;
//! the variants keep the distinction so callers can route them.

use vstd::prelude::*;

verus! {

/// The application-level error. Every variant carries the message that the
/// surface layer may show; no variant holds a transport-level payload.
#[derive(Debug, Clone)]
pub enum LyricsifyError {
    AuthenticationFailed(String),
    SpotifyApiError(String),
    LyricsFetchError(String),
    UIError(String),
    ConfigError(String),
    NetworkError(String),
    SerializationError(String),
    KeyringError(String),
    IoError(String),
}

impl LyricsifyError {
    /// The carried message, independent of the variant.
    pub open spec fn spec_message(&self) -> Seq<char> {
        match self {
            LyricsifyError::AuthenticationFailed(m) => m@,
            LyricsifyError::SpotifyApiError(m) => m@,
            LyricsifyError::LyricsFetchError(m) => m@,
            LyricsifyError::UIError(m) => m@,
            LyricsifyError::ConfigError(m) => m@,
            LyricsifyError::NetworkError(m) => m@,
            LyricsifyError::SerializationError(m) => m@,
            LyricsifyError::KeyringError(m) => m@,
            LyricsifyError::IoError(m) => m@,
        }
    }

    /// Returns the carried message.
    pub fn message(&self) -> (r: &String)
        ensures
            r@ == self.spec_message(),
    {
        match self {
            LyricsifyError::AuthenticationFailed(m) => m,
            LyricsifyError::SpotifyApiError(m) => m,
            LyricsifyError::LyricsFetchError(m) => m,
            LyricsifyError::UIError(m) => m,
            LyricsifyError::ConfigError(m) => m,
            LyricsifyError::NetworkError(m) => m,
            LyricsifyError::SerializationError(m) => m,
            LyricsifyError::KeyringError(m) => m,
            LyricsifyError::IoError(m) => m,
        }
    }
}

} // verus!
