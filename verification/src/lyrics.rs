//! Lyrics resolution: cache lookup first, remote fetch on a miss, and the
//! best-effort policy that turns every remote failure into a cached
//! negative answer.
//!
//! The HTTP transport runs outside the library. A lookup proceeds in three
//! verified steps: [`LyricsFetcher::cached_lyrics`] probes the cache;
//! on a miss the caller requests [`build_lyrics_url`] and classifies what
//! came back with [`classify_lyrics_response`]; and
//! [`LyricsFetcher::resolve_fetched`] records the outcome — text or a
//! negative entry — and produces the answer. The service never propagates a
//! hard failure for an individual lookup.

use vstd::prelude::*;
use vstd::string::StringExecFns;

use crate::cache::{cache_after_get, cache_after_insert, distinct_keys, has_key, value_of};
use crate::cache::{CacheModel, LyricsCache};
use crate::error::LyricsifyError;
use crate::text::{spec_decimal, u64_to_string, url_encode, url_encoded};

verus! {

/// How many tracks the lyrics cache holds.
pub const DEFAULT_CACHE_SIZE: usize = 100;

/// Cache-backed lyrics service.
pub struct LyricsFetcher {
    cache: LyricsCache,
}

impl View for LyricsFetcher {
    type V = CacheModel;

    closed spec fn view(&self) -> CacheModel {
        self.cache@
    }
}

impl LyricsFetcher {
    /// The cache capacity, as the contracts see it.
    pub closed spec fn capacity(&self) -> nat {
        self.cache.capacity()
    }

    /// Invariant: the cache respects its positive capacity and keeps its
    /// keys distinct.
    pub open spec fn wf(&self) -> bool {
        &&& 1 <= self.capacity()
        &&& self@.len() <= self.capacity()
        &&& distinct_keys(self@)
    }

    /// A fetcher with an empty cache of the default capacity.
    pub fn new() -> (r: LyricsFetcher)
        ensures
            r.wf(),
            r.capacity() == DEFAULT_CACHE_SIZE,
            r@ == Seq::<(Seq<char>, Option<Seq<char>>)>::empty(),
    {
        LyricsFetcher { cache: LyricsCache::new(DEFAULT_CACHE_SIZE) }
    }

    /// Probes the cache. A hit returns the cached result — positive or
    /// negative — and by the service's policy the caller makes no remote
    /// call; the touched entry becomes most recently used.
    pub fn cached_lyrics(&mut self, track_id: &str) -> (r: Option<Option<String>>)
        requires
            old(self).wf(),
        ensures
            final(self).wf(),
            final(self).capacity() == old(self).capacity(),
            final(self)@ == cache_after_get(old(self)@, track_id@),
            match r {
                Some(v) => has_key(old(self)@, track_id@) && v.deep_view() == value_of(
                    old(self)@,
                    track_id@,
                ),
                None => !has_key(old(self)@, track_id@),
            },
    {
        self.cache.get(track_id)
    }

    /// Records what the remote fetch came to and answers the lookup: found
    /// text is cached and returned; any failure — "not found" and transport
    /// faults alike — is cached as a negative entry and answered `None`,
    /// never surfaced as an error.
    pub fn resolve_fetched(&mut self, track_id: &str, fetched: Result<String, LyricsifyError>) -> (r:
        Option<String>)
        requires
            old(self).wf(),
        ensures
            final(self).wf(),
            final(self).capacity() == old(self).capacity(),
            match fetched {
                Ok(text) => final(self)@ == cache_after_insert(
                    old(self)@,
                    old(self).capacity(),
                    track_id@,
                    Some(text@),
                ) && (r matches Some(rt) && rt == text),
                Err(_) => final(self)@ == cache_after_insert(
                    old(self)@,
                    old(self).capacity(),
                    track_id@,
                    None,
                ) && r is None,
            },
    {
        match fetched {
            Ok(text) => {
                self.cache.insert(track_id.to_owned(), Some(text.clone()));
                Some(text)
            },
            Err(_) => {
                self.cache.insert(track_id.to_owned(), None);
                None
            },
        }
    }
}

/// The remote lyrics endpoint for an artist and title, both percent-encoded
/// into the path.
pub fn build_lyrics_url(artist: &str, title: &str) -> (r: String)
    ensures
        r@ == "https://api.lyrics.ovh/v1/"@ + url_encoded(artist@) + "/"@ + url_encoded(title@),
{
    let mut url = "https://api.lyrics.ovh/v1/".to_owned();
    url.append(url_encode(artist).as_str());
    url.append("/");
    url.append(url_encode(title).as_str());
    url
}

/// Classifies the remote response to a lyrics query. `lyrics_body` is the
/// `lyrics` field of the decoded body, when the body had that shape. A
/// success status with the field yields the text; 404 means the lyrics are
/// confirmed absent; everything else is a generic fetch failure naming the
/// status.
pub fn classify_lyrics_response(status: u16, lyrics_body: Option<String>) -> (r: Result<
    String,
    LyricsifyError,
>)
    ensures
        200 <= status < 300 && lyrics_body is Some ==> (r matches Ok(text) && text
            == lyrics_body->0),
        200 <= status < 300 && lyrics_body is None ==> (r matches Err(e) && e matches
            LyricsifyError::SerializationError(m) && m@
            == "Lyrics response body was not the expected shape"@),
        status == 404 ==> (r matches Err(e) && e matches LyricsifyError::LyricsFetchError(m) && m@
            == "Lyrics not found"@),
        !(200 <= status < 300) && status != 404 ==> (r matches Err(e) && e matches
            LyricsifyError::LyricsFetchError(m) && m@ == "API returned status: "@ + spec_decimal(
            status as nat,
        )),
{
    if 200 <= status && status < 300 {
        match lyrics_body {
            Some(text) => Ok(text),
            None => Err(
                LyricsifyError::SerializationError(
                    "Lyrics response body was not the expected shape".to_owned(),
                ),
            ),
        }
    } else if status == 404 {
        Err(LyricsifyError::LyricsFetchError("Lyrics not found".to_owned()))
    } else {
        let mut m = "API returned status: ".to_owned();
        m.append(u64_to_string(status as u64).as_str());
        Err(LyricsifyError::LyricsFetchError(m))
    }
}

} // verus!
