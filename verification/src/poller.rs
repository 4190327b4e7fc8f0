//! Track polling: change detection against the last known track, and the
//! retry/backoff policy for the playback query.
//!
//! The poller's remote work (the playback query, the interval tick, the
//! backoff sleep) runs outside the library; the loop hands each observation
//! in as a plain value and the library decides what changed and what to
//! emit.

use vstd::prelude::*;
use vstd::string::StringExecFns;

use crate::error::LyricsifyError;
use crate::text::spec_decimal;
use crate::text::u64_to_string;
use crate::track::{AppEvent, TrackInfo, TrackView};

verus! {

/// Number of attempts one poll makes before giving up.
pub const MAX_POLL_ATTEMPTS: usize = 3;

/// The view of an observation: the track seen, or `None` when nothing (or a
/// non-music item) is playing.
pub open spec fn poll_view(o: Option<TrackInfo>) -> Option<TrackView> {
    match o {
        Some(t) => Some(t@),
        None => None,
    }
}

/// One step of change detection: `(new last-known state, emitted track)`.
/// An unchanged observation emits nothing; a change to a track emits that
/// track; a change to "nothing playing" updates the state but emits
/// nothing — by design there is no "track cleared" event.
pub open spec fn poll_step(last: Option<TrackView>, seen: Option<TrackView>) -> (
    Option<TrackView>,
    Option<TrackView>,
) {
    if last == seen {
        (last, None)
    } else {
        (seen, seen)
    }
}

/// Detects track changes by value against the last known observation.
#[derive(Debug)]
pub struct TrackPoller {
    last: Option<TrackInfo>,
}

impl TrackPoller {
    /// The last known observation, as the contracts see it.
    pub closed spec fn spec_last(&self) -> Option<TrackView> {
        poll_view(self.last)
    }

    /// A poller that has observed nothing yet.
    pub fn new() -> (r: TrackPoller)
        ensures
            r.spec_last() is None,
    {
        TrackPoller { last: None }
    }

    /// Feeds one successful observation in. Emits `TrackChanged` exactly
    /// when the observation differs from the last known one and is a track;
    /// the last known state always moves to the observation.
    pub fn observe(&mut self, seen: Option<TrackInfo>) -> (ev: Option<AppEvent>)
        ensures
            final(self).spec_last() == poll_step(old(self).spec_last(), poll_view(seen)).0,
            match poll_step(old(self).spec_last(), poll_view(seen)).1 {
                Some(tv) => ev matches Some(AppEvent::TrackChanged(t)) && t@ == tv,
                None => ev is None,
            },
    {
        let same = match (&self.last, &seen) {
            (None, None) => true,
            (Some(a), Some(b)) => a.same_track(b),
            _ => false,
        };
        if same {
            None
        } else {
            match seen {
                Some(t) => {
                    let ev = AppEvent::TrackChanged(t.duplicate());
                    self.last = Some(t);
                    Some(ev)
                },
                None => {
                    self.last = None;
                    None
                },
            }
        }
    }

    /// The event for a poll whose retries were exhausted. The last known
    /// track is left untouched (the receiver is shared, not mutated), and
    /// the loop itself carries on.
    pub fn poll_error_event(&self, message: String) -> (ev: AppEvent)
        ensures
            ev matches AppEvent::SpotifyError(m) && m == message,
    {
        AppEvent::SpotifyError(message)
    }
}

/// The backoff delay in seconds before the attempt after `attempt` failed.
pub open spec fn spec_backoff_delay(attempt: int) -> u64 {
    if attempt == 0 {
        1
    } else if attempt == 1 {
        2
    } else {
        4
    }
}

/// What the poll loop does after one attempt: accept a success, sleep and
/// retry after an early failure, give up after the last.
#[derive(Debug, Clone, Copy, PartialEq, Eq, Structural)]
pub enum RetryAction {
    Accept,
    RetryAfterSeconds(u64),
    GiveUp,
}

/// Decides the follow-up to attempt number `attempt` (zero-based): success
/// is accepted at once; a failure sleeps the backoff delay and retries,
/// except after the final attempt, which gives up with no delay.
pub fn retry_action(attempt: usize, succeeded: bool) -> (r: RetryAction)
    requires
        attempt < MAX_POLL_ATTEMPTS,
    ensures
        succeeded ==> r == RetryAction::Accept,
        !succeeded && attempt + 1 < MAX_POLL_ATTEMPTS ==> r == RetryAction::RetryAfterSeconds(
            spec_backoff_delay(attempt as int),
        ),
        !succeeded && attempt + 1 == MAX_POLL_ATTEMPTS ==> r == RetryAction::GiveUp,
{
    if succeeded {
        RetryAction::Accept
    } else if attempt + 1 < MAX_POLL_ATTEMPTS {
        let delay: u64 = if attempt == 0 {
            1
        } else {
            2
        };
        RetryAction::RetryAfterSeconds(delay)
    } else {
        RetryAction::GiveUp
    }
}

/// The error message a poll surfaces after every attempt failed, carrying
/// the last attempt's own message.
pub fn give_up_message(last_error: &str) -> (r: String)
    ensures
        r@ == "Failed to get current track after "@ + spec_decimal(MAX_POLL_ATTEMPTS as nat)
            + " attempts: "@ + last_error@,
{
    let mut m = "Failed to get current track after ".to_owned();
    m.append(u64_to_string(MAX_POLL_ATTEMPTS as u64).as_str());
    m.append(" attempts: ");
    m.append(last_error);
    m
}

/// The error one failed playback query reports, carrying the transport's
/// own message.
pub fn playback_query_error(detail: &str) -> (e: LyricsifyError)
    ensures
        e matches LyricsifyError::SpotifyApiError(m) && m@
            == "Failed to get currently playing track: "@ + detail@,
{
    let mut m = "Failed to get currently playing track: ".to_owned();
    m.append(detail);
    LyricsifyError::SpotifyApiError(m)
}

/// Track-change dedup: the same observation twice in a row emits exactly
/// one change — the second step emits nothing, and the first emits the
/// track whenever it was news.
pub proof fn lemma_track_change_dedup(last: Option<TrackView>, t: TrackView)
    ensures
        poll_step(poll_step(last, Some(t)).0, Some(t)).1 is None,
        last != Some(t) ==> poll_step(last, Some(t)).1 == Some(t),
{
}

} // verus!
