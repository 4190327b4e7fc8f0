//! Token lifecycle of the playback-service session.
//!
//! [`AuthManager`] owns the current token and every decision of the
//! authorization-code flow: when a token counts as valid, when a refresh is
//! due, what happens to the state when a refresh succeeds or fails, and what
//! startup concludes from a stored token. The network exchanges themselves
//! (code-for-token, refresh) and the secure store run outside the library;
//! they hand their outcomes in as plain values.

use vstd::prelude::*;
use vstd::string::StringExecFns;

use crate::error::LyricsifyError;
use crate::text::{url_encode, url_encoded};

verus! {

/// Seconds before the recorded expiry at which a token already counts as
/// invalid, covering clock skew and request latency.
pub const TOKEN_VALIDITY_BUFFER_SECS: i64 = 60;

/// An access token with its refresh companion. `expires_at` is a Unix
/// timestamp in seconds; a token without one never expires.
#[derive(Debug)]
pub struct Token {
    pub access_token: String,
    pub refresh_token: Option<String>,
    pub expires_at: Option<i64>,
    pub scopes: Vec<String>,
}

impl Token {
    /// A token is valid at `now` when it records no expiry, or expires more
    /// than the buffer beyond `now`.
    pub open spec fn valid_at(&self, now: int) -> bool {
        match self.expires_at {
            None => true,
            Some(e) => e > now + TOKEN_VALIDITY_BUFFER_SECS,
        }
    }

    /// Decides validity at the given time.
    pub fn is_valid_at(&self, now: i64) -> (r: bool)
        ensures
            r == self.valid_at(now as int),
    {
        match self.expires_at {
            None => true,
            Some(e) => (e as i128) > (now as i128) + (TOKEN_VALIDITY_BUFFER_SECS as i128),
        }
    }
}

/// The OAuth configuration the authorization URL is built from.
#[derive(Debug)]
pub struct AuthConfig {
    pub client_id: String,
    pub client_secret: String,
    pub redirect_uri: String,
    pub scopes: Vec<String>,
}

impl AuthConfig {
    /// Builds the configuration from the environment-supplied credentials.
    /// The client id and secret are required; the redirect URI falls back to
    /// the local callback address; the scopes are the two read-only
    /// playback scopes the poller needs.
    pub fn new(
        client_id: Option<String>,
        client_secret: Option<String>,
        redirect_uri: Option<String>,
    ) -> (r: Result<AuthConfig, LyricsifyError>)
        ensures
            client_id is None ==> (r matches Err(e) && e matches
                LyricsifyError::AuthenticationFailed(m)
                && m@ == "SPOTIFY_CLIENT_ID environment variable not set"@),
            client_id is Some && client_secret is None ==> (r matches Err(e) && e matches
                LyricsifyError::AuthenticationFailed(m)
                && m@ == "SPOTIFY_CLIENT_SECRET environment variable not set"@),
            client_id is Some && client_secret is Some ==> (r matches Ok(cfg) && {
                &&& cfg.client_id == client_id->0
                &&& cfg.client_secret == client_secret->0
                &&& (redirect_uri matches Some(u) ==> cfg.redirect_uri == u)
                &&& (redirect_uri is None ==> cfg.redirect_uri@
                    == "http://localhost:8888/callback"@)
                &&& cfg.scopes.deep_view() =~= seq![
                    "user-read-currently-playing"@,
                    "user-read-playback-state"@,
                ]
            }),
    {
        let client_id = match client_id {
            Some(id) => id,
            None => {
                return Err(
                    LyricsifyError::AuthenticationFailed(
                        "SPOTIFY_CLIENT_ID environment variable not set".to_owned(),
                    ),
                );
            },
        };
        let client_secret = match client_secret {
            Some(s) => s,
            None => {
                return Err(
                    LyricsifyError::AuthenticationFailed(
                        "SPOTIFY_CLIENT_SECRET environment variable not set".to_owned(),
                    ),
                );
            },
        };
        let redirect_uri = match redirect_uri {
            Some(u) => u,
            None => "http://localhost:8888/callback".to_owned(),
        };
        let mut scopes: Vec<String> = Vec::new();
        scopes.push("user-read-currently-playing".to_owned());
        scopes.push("user-read-playback-state".to_owned());
        Ok(AuthConfig { client_id, client_secret, redirect_uri, scopes })
    }
}

/// The scopes joined by single spaces, in order.
pub open spec fn joined_with_spaces(parts: Seq<Seq<char>>) -> Seq<char>
    decreases parts.len(),
{
    if parts.len() == 0 {
        Seq::empty()
    } else if parts.len() == 1 {
        parts[0]
    } else {
        parts[0] + seq![' '] + joined_with_spaces(parts.drop_first())
    }
}

/// Joins the parts from `from` on with single spaces.
fn join_with_spaces_from(parts: &Vec<String>, from: usize) -> (r: String)
    requires
        from <= parts.len(),
    ensures
        r@ == joined_with_spaces(parts.deep_view().skip(from as int)),
    decreases parts.len() - from,
{
    proof {
        assert(parts.deep_view().len() == parts@.len());
    }
    if from == parts.len() {
        proof {
            assert(parts.deep_view().skip(from as int).len() == 0);
        }
        String::new()
    } else if from + 1 == parts.len() {
        proof {
            assert(parts.deep_view().skip(from as int) =~= seq![parts.deep_view()[from as int]]);
        }
        parts[from].clone()
    } else {
        let mut r = parts[from].clone();
        r.append(" ");
        let rest = join_with_spaces_from(parts, from + 1);
        r.append(rest.as_str());
        proof {
            reveal_strlit(" ");
            assert(" "@ =~= seq![' ']);
            let tail = parts.deep_view().skip(from as int);
            assert(tail.drop_first() =~= parts.deep_view().skip(from as int + 1));
            assert(tail[0] == parts.deep_view()[from as int]);
            assert(r@ =~= tail[0] + seq![' '] + joined_with_spaces(tail.drop_first()));
        }
        r
    }
}

/// The authorization URL for a configuration: the fixed authorize endpoint
/// with the client id, response type, redirect URI and space-joined scopes
/// as query parameters, each value percent-encoded.
pub open spec fn spec_auth_url(cfg: &AuthConfig) -> Seq<char> {
    "https://accounts.spotify.com/authorize?client_id="@ + url_encoded(cfg.client_id@)
        + "&response_type=code&redirect_uri="@ + url_encoded(cfg.redirect_uri@) + "&scope="@
        + url_encoded(joined_with_spaces(cfg.scopes.deep_view()))
}

/// The state machine of the session: unauthenticated, or holding a token
/// that the clock may have expired.
#[derive(Debug)]
pub struct AuthManager {
    config: AuthConfig,
    token: Option<Token>,
}

/// What `ensure_token_valid_plan` decides about a present token.
#[derive(Debug, Clone, Copy, PartialEq, Eq, Structural)]
pub enum TokenCheck {
    StillValid,
    RefreshNeeded,
}

/// What startup concludes from the stored token, before any refresh.
#[derive(Debug, Clone, Copy, PartialEq, Eq, Structural)]
pub enum InitPlan {
    AuthenticationRequired,
    Authenticated,
    RefreshNeeded,
}

/// The startup conclusion for a loaded token: none requires authentication,
/// a valid one authenticates, an expired one calls for a refresh.
pub open spec fn init_plan(loaded: Option<Token>, now: int) -> InitPlan {
    match loaded {
        None => InitPlan::AuthenticationRequired,
        Some(t) => if t.valid_at(now) {
            InitPlan::Authenticated
        } else {
            InitPlan::RefreshNeeded
        },
    }
}

/// Whether startup ends authenticated, given the plan and — when a refresh
/// was called for — whether that refresh succeeded.
pub open spec fn spec_initialize_outcome(plan: InitPlan, refresh_ok: bool) -> bool {
    match plan {
        InitPlan::AuthenticationRequired => false,
        InitPlan::Authenticated => true,
        InitPlan::RefreshNeeded => refresh_ok,
    }
}

impl AuthManager {
    /// The token currently held, as the contracts see it.
    pub closed spec fn spec_token(&self) -> Option<Token> {
        self.token
    }

    /// The configuration, as the contracts see it.
    pub closed spec fn spec_config(&self) -> &AuthConfig {
        &self.config
    }

    /// A manager with the given configuration and no token yet.
    pub fn new(config: AuthConfig) -> (r: AuthManager)
        ensures
            r.spec_token() is None,
            r.spec_config() == config,
    {
        AuthManager { config, token: None }
    }

    /// Sets the token directly (used when loading from the secure store).
    pub fn set_token(&mut self, token: Token)
        ensures
            final(self).spec_token() == Some(token),
            final(self).spec_config() == old(self).spec_config(),
    {
        self.token = Some(token);
    }

    /// The current token (for persisting in the secure store).
    pub fn get_token(&self) -> (r: &Option<Token>)
        ensures
            *r == self.spec_token(),
    {
        &self.token
    }

    /// Whether any token is present, expired or not.
    pub fn is_authenticated(&self) -> (r: bool)
        ensures
            r == (self.spec_token() is Some),
    {
        self.token.is_some()
    }

    /// A token exists and is valid at `now`.
    pub open spec fn spec_valid_at(&self, now: int) -> bool {
        match self.spec_token() {
            None => false,
            Some(t) => t.valid_at(now),
        }
    }

    /// Decides token validity at the given time.
    pub fn is_token_valid_at(&self, now: i64) -> (r: bool)
        ensures
            r == self.spec_valid_at(now as int),
    {
        match &self.token {
            None => false,
            Some(t) => t.is_valid_at(now),
        }
    }

    /// Decides token validity at the present moment. The clock is outside
    /// the library, so the contract states what holds at every time: no
    /// token is never valid, and a token without an expiry always is.
    pub fn is_token_valid(&self) -> (r: bool)
        ensures
            r ==> self.spec_token() is Some,
            self.spec_token() is None ==> !r,
            (self.spec_token() matches Some(t) && t.expires_at is None) ==> r,
    {
        let now = now_unix_time();
        self.is_token_valid_at(now)
    }

    /// The authorization URL for the configured application; fails when the
    /// required client id is absent from the configuration.
    pub fn get_auth_url(&self) -> (r: Result<String, LyricsifyError>)
        ensures
            self.spec_config().client_id@.len() == 0 ==> (r matches Err(e) && e matches
                LyricsifyError::AuthenticationFailed(m)
                && m@ == "Failed to generate auth URL: no client id configured"@),
            self.spec_config().client_id@.len() != 0 ==> (r matches Ok(u) && u@ == spec_auth_url(
                self.spec_config(),
            )),
    {
        if self.config.client_id.as_str().is_empty() {
            return Err(
                LyricsifyError::AuthenticationFailed(
                    "Failed to generate auth URL: no client id configured".to_owned(),
                ),
            );
        }
        let mut url = "https://accounts.spotify.com/authorize?client_id=".to_owned();
        url.append(url_encode(self.config.client_id.as_str()).as_str());
        url.append("&response_type=code&redirect_uri=");
        url.append(url_encode(self.config.redirect_uri.as_str()).as_str());
        url.append("&scope=");
        let joined = join_with_spaces_from(&self.config.scopes, 0);
        url.append(url_encode(joined.as_str()).as_str());
        proof {
            assert(self.config.scopes.deep_view().skip(0) =~= self.config.scopes.deep_view());
        }
        Ok(url)
    }

    /// The token to persist; fails when there is none to save.
    pub fn token_to_store(&self) -> (r: Result<&Token, LyricsifyError>)
        ensures
            match self.spec_token() {
                Some(t) => r matches Ok(rt) && *rt == t,
                None => r matches Err(e) && e matches LyricsifyError::AuthenticationFailed(m)
                    && m@ == "No token available to save"@,
            },
    {
        match &self.token {
            Some(t) => Ok(t),
            None => Err(
                LyricsifyError::AuthenticationFailed("No token available to save".to_owned()),
            ),
        }
    }

    /// Whether a refresh may begin: it requires an existing token.
    pub fn begin_refresh(&self) -> (r: Result<(), LyricsifyError>)
        ensures
            self.spec_token() is Some <==> r is Ok,
            self.spec_token() is None ==> (r matches Err(e) && e matches
                LyricsifyError::AuthenticationFailed(m)
                && m@ == "No token available to refresh"@),
    {
        match &self.token {
            Some(_) => Ok(()),
            None => Err(
                LyricsifyError::AuthenticationFailed("No token available to refresh".to_owned()),
            ),
        }
    }

    /// Adopts the token a successful refresh exchange returned; the caller
    /// persists it.
    pub fn refresh_succeeded(&mut self, new_token: Token)
        ensures
            final(self).spec_token() == Some(new_token),
            final(self).spec_config() == old(self).spec_config(),
    {
        self.token = Some(new_token);
    }

    /// Records a failed refresh: the token is cleared — re-authentication is
    /// required, never a silent retry — and the caller clears the persisted
    /// copy. Returns the error to surface.
    pub fn refresh_failed(&mut self, detail: &str) -> (e: LyricsifyError)
        ensures
            final(self).spec_token() is None,
            final(self).spec_config() == old(self).spec_config(),
            e matches LyricsifyError::AuthenticationFailed(m) && m@
                == "Token refresh failed, re-authentication required: "@ + detail@,
    {
        self.token = None;
        let mut m = "Token refresh failed, re-authentication required: ".to_owned();
        m.append(detail);
        LyricsifyError::AuthenticationFailed(m)
    }

    /// The single gate every remote call passes: fails when unauthenticated,
    /// otherwise says whether the token must be refreshed first.
    pub fn ensure_token_valid_plan(&self, now: i64) -> (r: Result<TokenCheck, LyricsifyError>)
        ensures
            match self.spec_token() {
                None => r matches Err(e) && e matches LyricsifyError::AuthenticationFailed(m)
                    && m@ == "Not authenticated"@,
                Some(t) => r matches Ok(c) && c == (if t.valid_at(now as int) {
                    TokenCheck::StillValid
                } else {
                    TokenCheck::RefreshNeeded
                }),
            },
    {
        match &self.token {
            None => Err(LyricsifyError::AuthenticationFailed("Not authenticated".to_owned())),
            Some(t) => if t.is_valid_at(now) {
                Ok(TokenCheck::StillValid)
            } else {
                Ok(TokenCheck::RefreshNeeded)
            },
        }
    }

    /// Startup step one: adopt whatever the secure store held and conclude
    /// a plan. No stored token means authentication is required; a valid one
    /// authenticates; an expired one calls for a single refresh attempt,
    /// whose outcome the caller feeds to [`initialize_outcome`].
    pub fn initialize_plan(&mut self, loaded: Option<Token>, now: i64) -> (r: InitPlan)
        ensures
            final(self).spec_token() == loaded,
            final(self).spec_config() == old(self).spec_config(),
            r == init_plan(loaded, now as int),
    {
        let plan = match &loaded {
            None => InitPlan::AuthenticationRequired,
            Some(t) => if t.is_valid_at(now) {
                InitPlan::Authenticated
            } else {
                InitPlan::RefreshNeeded
            },
        };
        self.token = loaded;
        plan
    }
}

/// Startup step two: whether the process starts authenticated. A refresh
/// outcome matters only when the plan called for one; a failed refresh ends
/// unauthenticated rather than failing startup.
pub fn initialize_outcome(plan: InitPlan, refresh_ok: bool) -> (r: bool)
    ensures
        r == spec_initialize_outcome(plan, refresh_ok),
{
    match plan {
        InitPlan::AuthenticationRequired => false,
        InitPlan::Authenticated => true,
        InitPlan::RefreshNeeded => refresh_ok,
    }
}

/// The error surfaced when the code-for-token exchange fails, whatever the
/// transport or protocol fault was.
pub fn exchange_failed_error(detail: &str) -> (e: LyricsifyError)
    ensures
        e matches LyricsifyError::AuthenticationFailed(m) && m@
            == "Failed to exchange code for token: "@ + detail@,
{
    let mut m = "Failed to exchange code for token: ".to_owned();
    m.append(detail);
    LyricsifyError::AuthenticationFailed(m)
}

/// Relies on `chrono::Utc::now`: the current Unix time in whole seconds.
/// Nothing is assumed of the value — the clock is the machine's.
#[verifier::external_body]
pub(crate) fn now_unix_time() -> i64 {
    chrono::Utc::now().timestamp()
}

/// Validity boundary: a token expiring 59 seconds past `now` is already
/// invalid at `now`, one expiring 61 seconds past `now` is still valid —
/// the 60-second buffer is strict on both sides.
pub proof fn lemma_token_validity_boundary(t: Token, now: i64)
    ensures
        (t.expires_at matches Some(e) && e == now + 59) ==> !t.valid_at(now as int),
        (t.expires_at matches Some(e) && e == now + 61) ==> t.valid_at(now as int),
{
}

/// An expired stored token whose refresh fails leaves the process
/// unauthenticated: the plan demands a refresh, a failed refresh clears the
/// token (see [`AuthManager::refresh_failed`]), and the outcome is
/// "authentication required".
pub proof fn lemma_expired_refresh_failure_requires_reauth(t: Token, now: i64)
    requires
        t.expires_at matches Some(e) && e <= now,
    ensures
        init_plan(Some(t), now as int) == InitPlan::RefreshNeeded,
        !spec_initialize_outcome(init_plan(Some(t), now as int), false),
{
}

} // verus!
