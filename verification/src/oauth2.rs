//! OAuth2 client-credentials support: the discovery document, the client
//! configuration, and the token source with its cached-token freshness
//! discipline.
use vstd::prelude::*;

use crate::errors::DiscoveryError;
use crate::errors::TokenAcquisitionError;

verus! {

/// The identity provider's discovery document, reduced to the two endpoint
/// URLs this client needs. Immutable once fetched.
pub struct WellKnown {
    pub authorization_endpoint: String,
    pub token_endpoint: String,
}

/// The URL of the identity provider's discovery document for a domain.
pub fn well_known_url(domain: &str) -> (r: String)
    ensures
        r@ == "https://"@ + domain@ + "/.well-known/openid-configuration"@,
{
    let mut s = String::from_str("https://");
    s.append(domain);
    s.append("/.well-known/openid-configuration");
    s
}

/// Whether a string parses as an absolute URL.
pub uninterp spec fn is_parsable_url(s: Seq<char>) -> bool;

/// Relies on url::Url::parse: it returns Ok exactly when its input is an
/// absolute URL, and its verdict depends on the input string alone.
#[verifier::external_body]
fn url_parses(s: &str) -> (r: bool)
    ensures
        r == is_parsable_url(s@),
{
    url::Url::parse(s).is_ok()
}

/// The immutable configuration of an OAuth2 client: its credentials and the
/// provider's validated endpoint URLs.
#[derive(Debug)]
pub struct OAuthClient {
    pub client_id: String,
    pub client_secret: String,
    pub auth_url: String,
    pub token_url: String,
}

impl OAuthClient {
    /// Both endpoint URLs were checked to parse when the client was built.
    pub open spec fn well_formed(self) -> bool {
        is_parsable_url(self.auth_url@) && is_parsable_url(self.token_url@)
    }
}

/// Builds the OAuth2 client configuration from a discovery document and the
/// caller's credentials, validating both endpoint URLs. The authorization
/// endpoint is checked first, so a document with two bad URLs reports the
/// authorization endpoint.
pub fn create_client(well_known: WellKnown, client_id: String, client_secret: String) -> (r:
    Result<OAuthClient, DiscoveryError>)
    ensures
        r is Ok <==> is_parsable_url(well_known.authorization_endpoint@) && is_parsable_url(
            well_known.token_endpoint@,
        ),
        r matches Ok(c) ==> c == (OAuthClient {
            client_id: client_id,
            client_secret: client_secret,
            auth_url: well_known.authorization_endpoint,
            token_url: well_known.token_endpoint,
        }) && c.well_formed(),
        r matches Err(e) ==> (e == DiscoveryError::InvalidAuthorizationEndpoint <==> !is_parsable_url(
            well_known.authorization_endpoint@,
        )),
        r matches Err(e) ==> (e == DiscoveryError::InvalidTokenEndpoint <==> is_parsable_url(
            well_known.authorization_endpoint@,
        ) && !is_parsable_url(well_known.token_endpoint@)),
{
    if !url_parses(well_known.authorization_endpoint.as_str()) {
        Err(DiscoveryError::InvalidAuthorizationEndpoint)
    } else if !url_parses(well_known.token_endpoint.as_str()) {
        Err(DiscoveryError::InvalidTokenEndpoint)
    } else {
        Ok(
            OAuthClient {
                client_id,
                client_secret,
                auth_url: well_known.authorization_endpoint,
                token_url: well_known.token_endpoint,
            },
        )
    }
}

/// The lifetime assumed for a token whose grant response names none.
pub const DEFAULT_TOKEN_LIFETIME_SECS: u64 = 3600;

/// A successful client-credentials grant response: the access token and the
/// provider-reported lifetime in seconds, if any.
pub struct GrantResponse {
    pub access_token: String,
    pub expires_in: Option<u64>,
}

impl GrantResponse {
    /// The lifetime of the granted token: the provider-reported one, or
    /// 3600 seconds when the provider omits it.
    pub open spec fn lifetime_secs(self) -> u64 {
        match self.expires_in {
            Some(secs) => secs,
            None => DEFAULT_TOKEN_LIFETIME_SECS,
        }
    }
}

/// An access token together with the absolute time (seconds) at which it
/// stops being usable.
pub struct CachedToken {
    pub token: String,
    pub expiry: u64,
}

/// The abstract content of the token cache: the token's characters and its
/// expiry time, or nothing.
pub type CacheModel = Option<(Seq<char>, u64)>;

/// Whether a cache holds a token that is still usable at `now`: the token
/// must exist and its expiry must lie strictly after `now`. A token whose
/// expiry equals `now` is already expired.
pub open spec fn fresh_at(cache: CacheModel, now: u64) -> bool {
    match cache {
        Some(c) => c.1 > now,
        None => false,
    }
}

/// The cache content after a refresh at `now` granted `token` with lifetime
/// `lifetime` seconds.
pub open spec fn refreshed_at(token: Seq<char>, now: u64, lifetime: u64) -> CacheModel {
    Some((token, (now + lifetime) as u64))
}

/// Owns the client credentials and the cached token; hands out a valid
/// access token, deciding when a refresh against the token endpoint is due
/// and how its outcome changes the cache. The unverified surroundings hold
/// a value of this type behind one mutual-exclusion lock, acquire that lock
/// for the whole of each token request, and perform the network refresh
/// between `current_token` and `finish_refresh`.
pub struct TokenSource {
    pub client: OAuthClient,
    pub scopes: Vec<String>,
    pub cached: Option<CachedToken>,
}

impl TokenSource {
    /// The abstract content of this source's cache.
    pub open spec fn cache_model(self) -> CacheModel {
        match self.cached {
            Some(c) => Some((c.token@, c.expiry)),
            None => None,
        }
    }

    /// Whether the cached token is usable at `now`.
    pub open spec fn is_fresh(self, now: u64) -> bool {
        fresh_at(self.cache_model(), now)
    }

    /// A fresh token source: the given configuration, and no cached token.
    pub fn new(client: OAuthClient, scopes: Vec<String>) -> (ts: TokenSource)
        ensures
            ts.client == client,
            ts.scopes == scopes,
            ts.cached is None,
    {
        TokenSource { client, scopes, cached: None }
    }

    /// Whether a token-endpoint refresh is due at `now`: the cache is empty
    /// or its token's expiry is at or before `now`.
    pub fn needs_refresh(&self, now: u64) -> (b: bool)
        ensures
            b == !self.is_fresh(now),
    {
        match &self.cached {
            Some(c) => c.expiry <= now,
            None => true,
        }
    }

    /// The cached access token, exactly when it is still usable at `now`.
    pub fn current_token(&self, now: u64) -> (r: Option<String>)
        ensures
            r is Some <==> self.is_fresh(now),
            r matches Some(t) ==> t@ == self.cache_model().unwrap().0,
    {
        match &self.cached {
            Some(c) => {
                if c.expiry > now {
                    Some(c.token.clone())
                } else {
                    None
                }
            },
            None => None,
        }
    }

    /// Replaces the cached token with the one a grant response carries,
    /// expiring the provider-reported lifetime (or 3600 seconds) after
    /// `now`. Returns the granted access token.
    pub fn apply_grant(&mut self, grant: GrantResponse, now: u64) -> (r: String)
        requires
            now + grant.lifetime_secs() <= u64::MAX,
        ensures
            final(self).client == old(self).client,
            final(self).scopes == old(self).scopes,
            final(self).cache_model() == refreshed_at(grant.access_token@, now, grant.lifetime_secs()),
            r == grant.access_token,
    {
        let lifetime: u64 = match grant.expires_in {
            Some(secs) => secs,
            None => DEFAULT_TOKEN_LIFETIME_SECS,
        };
        let token = grant.access_token;
        self.cached = Some(CachedToken { token: token.clone(), expiry: now + lifetime });
        token
    }

    /// Applies the outcome of a token-endpoint refresh performed at `now`.
    /// A successful grant replaces the cached token and is returned to the
    /// caller; a failure is propagated and leaves the cache exactly as it
    /// was, so a later call can retry.
    pub fn finish_refresh(
        &mut self,
        outcome: Result<GrantResponse, TokenAcquisitionError>,
        now: u64,
    ) -> (r: Result<String, TokenAcquisitionError>)
        requires
            outcome matches Ok(g) ==> now + g.lifetime_secs() <= u64::MAX,
        ensures
            final(self).client == old(self).client,
            final(self).scopes == old(self).scopes,
            outcome matches Ok(g) ==> final(self).cache_model() == refreshed_at(
                g.access_token@,
                now,
                g.lifetime_secs(),
            ) && r == Ok::<String, TokenAcquisitionError>(g.access_token),
            outcome matches Err(e) ==> *final(self) == *old(self) && r == Err::<
                String,
                TokenAcquisitionError,
            >(e),
    {
        match outcome {
            Ok(grant) => Ok(self.apply_grant(grant, now)),
            Err(e) => Err(e),
        }
    }
}

/// One serialized token request at time `now` against a cache, where a
/// refresh (should one be due) would be granted the token `gtok` with
/// lifetime `glife`: the cache afterwards, the number of token-endpoint
/// requests made, and the token handed to the caller. Lock acquisition in
/// the surroundings serializes concurrent callers into such a sequence.
pub open spec fn serve_one(cache: CacheModel, now: u64, gtok: Seq<char>, glife: u64) -> (
    CacheModel,
    nat,
    Seq<char>,
) {
    if fresh_at(cache, now) {
        (cache, 0 as nat, cache.unwrap().0)
    } else {
        (refreshed_at(gtok, now, glife), 1 as nat, gtok)
    }
}

/// A sequence of serialized token requests, the `i`th one re-checking
/// freshness at time `times[i]`, where every refresh would be granted
/// `gtok` with lifetime `glife`: the final cache, the total number of
/// token-endpoint requests, and the tokens handed out in order.
pub open spec fn serve_calls(cache: CacheModel, times: Seq<u64>, gtok: Seq<char>, glife: u64) -> (
    CacheModel,
    nat,
    Seq<Seq<char>>,
)
    decreases times.len(),
{
    if times.len() == 0 {
        (cache, 0 as nat, Seq::empty())
    } else {
        let first = serve_one(cache, times[0], gtok, glife);
        let rest = serve_calls(first.0, times.drop_first(), gtok, glife);
        (rest.0, first.1 + rest.1, seq![first.2] + rest.2)
    }
}

/// While the cache holds a token whose expiry lies strictly after every
/// caller's clock reading, the calls cause zero token-endpoint requests,
/// every caller receives the cached token, and the cache is left as it
/// was.
pub proof fn lemma_fresh_cache_no_refresh(
    cache: CacheModel,
    times: Seq<u64>,
    gtok: Seq<char>,
    glife: u64,
)
    requires
        forall|i: int| 0 <= i < times.len() ==> fresh_at(cache, times[i]),
    ensures
        serve_calls(cache, times, gtok, glife).0 == cache,
        serve_calls(cache, times, gtok, glife).1 == 0,
        serve_calls(cache, times, gtok, glife).2.len() == times.len(),
        forall|i: int|
            0 <= i < times.len() ==> serve_calls(cache, times, gtok, glife).2[i]
                == cache.unwrap().0,
    decreases times.len(),
{
    if times.len() > 0 {
        let rest_times = times.drop_first();
        assert forall|i: int| 0 <= i < rest_times.len() implies fresh_at(cache, rest_times[i]) by {
            assert(rest_times[i] == times[i + 1]);
        }
        lemma_fresh_cache_no_refresh(cache, rest_times, gtok, glife);
        let r = serve_calls(cache, times, gtok, glife);
        let rest = serve_calls(cache, rest_times, gtok, glife);
        assert forall|i: int| 0 <= i < times.len() implies r.2[i] == cache.unwrap().0 by {
            if i > 0 {
                assert(r.2[i] == rest.2[i - 1]);
            }
        }
    }
}

/// The single-flight guarantee: when callers find the cache stale and the
/// first of them refreshes it, every caller whose own freshness re-check
/// happens before the granted token's expiry causes no further request.
/// Exactly one token-endpoint request is made, and every caller receives
/// the freshly granted token. A caller that re-checks at or after the new
/// expiry (for instance when the grant's lifetime is zero) lies outside
/// this contention window and refreshes anew.
pub proof fn lemma_stale_cache_single_flight(
    cache: CacheModel,
    times: Seq<u64>,
    gtok: Seq<char>,
    glife: u64,
)
    requires
        times.len() >= 1,
        !fresh_at(cache, times[0]),
        times[0] + glife <= u64::MAX,
        forall|i: int| 1 <= i < times.len() ==> #[trigger] times[i] < times[0] + glife,
    ensures
        serve_calls(cache, times, gtok, glife).1 == 1,
        serve_calls(cache, times, gtok, glife).2.len() == times.len(),
        forall|i: int| 0 <= i < times.len() ==> serve_calls(cache, times, gtok, glife).2[i] == gtok,
{
    let refreshed = refreshed_at(gtok, times[0], glife);
    let rest_times = times.drop_first();
    assert forall|i: int| 0 <= i < rest_times.len() implies fresh_at(refreshed, rest_times[i]) by {
        assert(rest_times[i] == times[i + 1]);
    }
    lemma_fresh_cache_no_refresh(refreshed, rest_times, gtok, glife);
    let r = serve_calls(cache, times, gtok, glife);
    let rest = serve_calls(refreshed, rest_times, gtok, glife);
    assert forall|i: int| 0 <= i < times.len() implies r.2[i] == gtok by {
        if i > 0 {
            assert(r.2[i] == rest.2[i - 1]);
            assert(rest.2[i - 1] == refreshed.unwrap().0);
        }
    }
}

/// A token whose expiry timestamp equals `now` exactly is treated as
/// expired: it is never served at or past its expiry instant.
pub proof fn lemma_expiry_boundary(token: Seq<char>, now: u64)
    ensures
        !fresh_at(Some((token, now)), now),
{
}

/// A grant response that omits `expires_in` is assumed to live exactly
/// 3600 seconds from the moment of refresh.
pub proof fn lemma_default_lifetime(grant: GrantResponse)
    requires
        grant.expires_in is None,
    ensures
        grant.lifetime_secs() == 3600,
{
}

} // verus!
