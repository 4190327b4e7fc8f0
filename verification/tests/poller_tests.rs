use lyricsify::error::LyricsifyError;
use lyricsify::poller::{
    give_up_message, playback_query_error, retry_action, RetryAction, TrackPoller,
    MAX_POLL_ATTEMPTS,
};
use lyricsify::track::{track_of, AppEvent, PlayingItem, TrackInfo};

fn track(id: &str, name: &str) -> TrackInfo {
    TrackInfo {
        id: id.to_string(),
        name: name.to_string(),
        artists: vec!["Artist".to_string()],
        duration_ms: 180_000,
    }
}

#[test]
fn same_observation_twice_emits_one_change() {
    // Scenario: the poller sees track A, then A again, then B; exactly two
    // TrackChanged events come out, for A and then B.
    let mut poller = TrackPoller::new();
    let a1 = poller.observe(Some(track("a", "Alpha")));
    match a1 {
        Some(AppEvent::TrackChanged(t)) => assert_eq!(t.id, "a"),
        _ => panic!("expected a track change for A"),
    }
    let a2 = poller.observe(Some(track("a", "Alpha")));
    assert!(a2.is_none());
    let b = poller.observe(Some(track("b", "Beta")));
    match b {
        Some(AppEvent::TrackChanged(t)) => assert_eq!(t.id, "b"),
        _ => panic!("expected a track change for B"),
    }
}

#[test]
fn transition_to_nothing_emits_no_event() {
    let mut poller = TrackPoller::new();
    assert!(poller.observe(None).is_none());
    let first = poller.observe(Some(track("a", "Alpha")));
    assert!(first.is_some());
    // Playback stops: the state moves, but no event is emitted.
    assert!(poller.observe(None).is_none());
    // The same track again is news after the gap.
    assert!(poller.observe(Some(track("a", "Alpha"))).is_some());
}

#[test]
fn changed_fields_count_as_a_new_track() {
    let mut poller = TrackPoller::new();
    poller.observe(Some(track("a", "Alpha")));
    let mut other = track("a", "Alpha");
    other.artists = vec!["Someone Else".to_string()];
    assert!(poller.observe(Some(other)).is_some());
}

#[test]
fn retry_backoff_delays_are_one_then_two_seconds() {
    // Scenario: attempts one and two fail, attempt three succeeds; the
    // observed delays are 1s then 2s, and none after the success.
    assert_eq!(retry_action(0, false), RetryAction::RetryAfterSeconds(1));
    assert_eq!(retry_action(1, false), RetryAction::RetryAfterSeconds(2));
    assert_eq!(retry_action(2, true), RetryAction::Accept);
}

#[test]
fn retry_gives_up_after_final_attempt_without_delay() {
    assert_eq!(MAX_POLL_ATTEMPTS, 3);
    assert_eq!(retry_action(2, false), RetryAction::GiveUp);
}

#[test]
fn retry_accepts_immediate_success() {
    assert_eq!(retry_action(0, true), RetryAction::Accept);
}

#[test]
fn give_up_message_names_the_attempt_count() {
    let m = give_up_message("boom");
    assert_eq!(m, "Failed to get current track after 3 attempts: boom");
}

#[test]
fn poll_error_event_carries_the_message() {
    let poller = TrackPoller::new();
    let ev = poller.poll_error_event("it broke".to_string());
    match ev {
        AppEvent::SpotifyError(m) => assert_eq!(m, "it broke"),
        _ => panic!("expected a service error event"),
    }
}

#[test]
fn playback_query_error_formats_the_detail() {
    let e = playback_query_error("http status 500");
    match e {
        LyricsifyError::SpotifyApiError(m) => {
            assert_eq!(m, "Failed to get currently playing track: http status 500")
        }
        _ => panic!("expected a playback service error"),
    }
}

#[test]
fn podcasts_and_silence_resolve_to_no_track() {
    assert!(track_of(PlayingItem::Podcast).is_none());
    assert!(track_of(PlayingItem::Nothing).is_none());
    let t = track_of(PlayingItem::Music(track("a", "Alpha")));
    assert_eq!(t.unwrap().name, "Alpha");
}

#[test]
fn track_equality_is_structural() {
    let a = track("a", "Alpha");
    let b = track("a", "Alpha");
    assert!(a.same_track(&b));
    let mut c = track("a", "Alpha");
    c.duration_ms = 1;
    assert!(!a.same_track(&c));
}
