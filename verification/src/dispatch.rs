//! The event dispatcher's decisions.
//!
//! A single consumer drains the application's ordered event channel; for
//! each event, [`dispatch_event`] decides the side effect to perform. The
//! effects themselves — the remote lyrics fetch, the overlay and menu
//! updates, opening the browser, shutdown — run outside the library.

use vstd::prelude::*;
use vstd::string::StringExecFns;

use crate::track::AppEvent;

verus! {

/// The side effect one event calls for.
#[derive(Debug)]
pub enum DispatchAction {
    /// Resolve lyrics for the track, then feed the result back into the
    /// channel as `LyricsRetrieved`.
    FetchLyrics { track_id: String, artist: String, title: String },
    /// Show this text on the overlay.
    UpdateOverlay(String),
    /// Set the overlay's visibility, and reflect the same state on the
    /// status menu.
    SetOverlayVisible(bool),
    /// Obtain the authorization URL and open it in the browser.
    OpenAuthUrl,
    /// Persist the configuration and leave the event loop.
    Shutdown,
}

/// The text the overlay shows for a lyrics result: the lyrics themselves,
/// or an explicit "not available" message — a missing result is never
/// silently dropped.
pub open spec fn overlay_text(lyrics: Option<Seq<char>>) -> Seq<char> {
    match lyrics {
        Some(text) => text,
        None => "Lyrics not available for this track"@,
    }
}

/// The text the overlay shows for a poll error: a fixed headline above the
/// message that was already formatted into the error.
pub open spec fn error_overlay_text(message: Seq<char>) -> Seq<char> {
    "Unable to connect to Spotify\n\n"@ + message
}

/// Decides the side effect of one event. A track change starts a lyrics
/// fetch keyed by the track's identity, with its first artist (or an empty
/// string) and its name; a lyrics result or a poll error becomes overlay
/// text; toggling flips the given visibility; errors are visible but
/// non-fatal; `Quit` is the terminal state.
pub fn dispatch_event(event: AppEvent, overlay_visible: bool) -> (a: DispatchAction)
    ensures
        match event {
            AppEvent::TrackChanged(t) => a matches DispatchAction::FetchLyrics {
                track_id,
                artist,
                title,
            } && track_id@ == t@.id && title@ == t@.name && (t@.artists.len() > 0 ==> artist@
                == t@.artists[0]) && (t@.artists.len() == 0 ==> artist@ == Seq::<char>::empty()),
            AppEvent::LyricsRetrieved(l) => a matches DispatchAction::UpdateOverlay(text) && text@
                == overlay_text(l.deep_view()),
            AppEvent::ToggleOverlay => a matches DispatchAction::SetOverlayVisible(v) && v
                == !overlay_visible,
            AppEvent::Authenticate => a matches DispatchAction::OpenAuthUrl,
            AppEvent::Quit => a matches DispatchAction::Shutdown,
            AppEvent::SpotifyError(m) => a matches DispatchAction::UpdateOverlay(text) && text@
                == error_overlay_text(m@),
        },
{
    match event {
        AppEvent::TrackChanged(track) => {
            let artist: String = if track.artists.len() > 0 {
                track.artists[0].clone()
            } else {
                String::new()
            };
            DispatchAction::FetchLyrics { track_id: track.id, artist, title: track.name }
        },
        AppEvent::LyricsRetrieved(lyrics) => match lyrics {
            Some(text) => DispatchAction::UpdateOverlay(text),
            None => DispatchAction::UpdateOverlay(
                "Lyrics not available for this track".to_owned(),
            ),
        },
        AppEvent::ToggleOverlay => DispatchAction::SetOverlayVisible(!overlay_visible),
        AppEvent::Authenticate => DispatchAction::OpenAuthUrl,
        AppEvent::Quit => DispatchAction::Shutdown,
        AppEvent::SpotifyError(message) => {
            let mut text = "Unable to connect to Spotify\n\n".to_owned();
            text.append(message.as_str());
            DispatchAction::UpdateOverlay(text)
        },
    }
}

/// The log line for a user-facing notification.
pub fn show_notification(title: &str, message: &str) -> (r: String)
    ensures
        r@ == "Notification: "@ + title@ + " - "@ + message@,
{
    let mut r = "Notification: ".to_owned();
    r.append(title);
    r.append(" - ");
    r.append(message);
    r
}

} // verus!
