//! Track identity and the application's event vocabulary.

use vstd::prelude::*;

verus! {

/// Mathematical image of a [`TrackInfo`]: every text field as a sequence of
/// characters. Track equality throughout the engine means equality of this
/// view.
#[verifier::ext_equal]
pub ghost struct TrackView {
    pub id: Seq<char>,
    pub name: Seq<char>,
    pub artists: Seq<Seq<char>>,
    pub duration_ms: u64,
}

/// Information about one playable track. Immutable once constructed;
/// compared by value. The `id` is the stable identity the cache and the
/// poller key on.
#[derive(Debug)]
pub struct TrackInfo {
    pub id: String,
    pub name: String,
    pub artists: Vec<String>,
    pub duration_ms: u64,
}

impl View for TrackInfo {
    type V = TrackView;

    open spec fn view(&self) -> TrackView {
        TrackView {
            id: self.id@,
            name: self.name@,
            artists: self.artists.deep_view(),
            duration_ms: self.duration_ms,
        }
    }
}

impl TrackInfo {
    /// Structural equality of two tracks: all fields, artist order included.
    pub fn same_track(&self, other: &TrackInfo) -> (r: bool)
        ensures
            r == (self@ == other@),
    {
        if !(self.id == other.id && self.name == other.name
            && self.duration_ms == other.duration_ms) {
            return false;
        }
        if self.artists.len() != other.artists.len() {
            assert(self@.artists.len() != other@.artists.len());
            return false;
        }
        let n = self.artists.len();
        let mut i: usize = 0;
        while i < n
            invariant
                n == self.artists.len() == other.artists.len(),
                0 <= i <= n,
                forall|j: int| 0 <= j < i ==> self.artists@[j]@ == other.artists@[j]@,
            decreases n - i,
        {
            if !(self.artists[i] == other.artists[i]) {
                assert(self@.artists[i as int] != other@.artists[i as int]);
                return false;
            }
            i += 1;
        }
        proof {
            assert(self@.artists =~= other@.artists);
            assert(self@ =~= other@);
        }
        true
    }

    /// A copy that is equal to `self` under the view.
    pub fn duplicate(&self) -> (r: TrackInfo)
        ensures
            r@ == self@,
    {
        let mut artists: Vec<String> = Vec::new();
        let mut i: usize = 0;
        while i < self.artists.len()
            invariant
                0 <= i <= self.artists.len(),
                artists.len() == i,
                forall|j: int| 0 <= j < i ==> artists@[j]@ == self.artists@[j]@,
            decreases self.artists.len() - i,
        {
            artists.push(self.artists[i].clone());
            i += 1;
        }
        let r = TrackInfo {
            id: self.id.clone(),
            name: self.name.clone(),
            artists,
            duration_ms: self.duration_ms,
        };
        proof {
            assert(r@.artists =~= self@.artists);
            assert(r@ =~= self@);
        }
        r
    }
}

/// Lyrics as handed to the presentation layer: the text when some source
/// had it, `None` for a confirmed "no lyrics", and the name of the source.
#[derive(Debug, Clone)]
pub struct Lyrics {
    pub text: Option<String>,
    pub source: String,
}

/// The events the dispatcher consumes, in the order the channel delivers
/// them. Immutable value objects.
#[derive(Debug)]
pub enum AppEvent {
    TrackChanged(TrackInfo),
    LyricsRetrieved(Option<String>),
    ToggleOverlay,
    Authenticate,
    Quit,
    SpotifyError(String),
}

/// What one playback query observed, reduced to plain values. Non-music
/// items (podcast episodes) resolve to "no track" rather than an error.
#[derive(Debug)]
pub enum PlayingItem {
    Music(TrackInfo),
    Podcast,
    Nothing,
}

/// The track a playback observation stands for: music carries its track,
/// podcasts and silence count as "no track".
pub fn track_of(item: PlayingItem) -> (r: Option<TrackInfo>)
    ensures
        match item {
            PlayingItem::Music(t) => r matches Some(rt) && rt == t,
            PlayingItem::Podcast => r is None,
            PlayingItem::Nothing => r is None,
        },
{
    match item {
        PlayingItem::Music(t) => Some(t),
        PlayingItem::Podcast => None,
        PlayingItem::Nothing => None,
    }
}

} // verus!
