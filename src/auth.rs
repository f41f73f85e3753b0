use vstd::prelude::*;
use crate::config::opt_view;
use crate::headers::{extend_headers, pairs_view, push_header};
use crate::util::{now, version_header_pairs, version_headers};

verus! {

/// A short-lived bearer credential and the second at which it expires.
pub struct Token {
    pub token: String,
    pub expires_at: u64,
}

/// What a credential holds, as plain values.
pub struct Credential {
    pub secret: Seq<char>,
    pub expires_at: u64,
}

impl Credential {
    /// A credential is valid strictly before its expiry second.
    pub open spec fn valid_at(self, now: u64) -> bool {
        self.expires_at > now
    }
}

impl View for Token {
    type V = Credential;

    open spec fn view(&self) -> Credential {
        Credential { secret: self.token@, expires_at: self.expires_at }
    }
}

impl Token {
    /// Whether the credential is still valid at second `now`.
    pub fn is_available_at(&self, now: u64) -> (r: bool)
        ensures
            r == self@.valid_at(now),
    {
        self.expires_at > now
    }

    /// Whether the credential is still valid at the current time.
    pub fn is_available(&self) -> (r: bool)
        ensures
            self.expires_at == 0 ==> !r,
    {
        self.is_available_at(now())
    }
}

/// A credential is expired at its expiry second and valid one second before.
pub proof fn lemma_expiry_boundary(c: Credential, now: u64)
    ensures
        c.expires_at == now ==> !c.valid_at(now),
        c.expires_at == now + 1 ==> c.valid_at(now),
{
}

/// Holds the long-lived secret that is exchanged for credentials.
pub struct Authenticator {
    github_token: String,
}

/// The headers of a token exchange made with `secret`.
pub open spec fn token_request_header_pairs(secret: Seq<char>) -> Seq<(Seq<char>, Seq<char>)> {
    seq![("Authorization"@, "token "@ + secret), ("Accept"@, "application/json"@)] + version_header_pairs()
}

/// Why a token exchange failed.
pub enum AuthError {
    /// The request did not reach the endpoint or no response came back.
    Transport,
    /// The endpoint answered with a status outside 200..=299.
    Status(u16),
    /// The response body was not a credential.
    Decode,
}

/// A status code means success when it lies in 200..=299.
pub open spec fn is_success_spec(status: u16) -> bool {
    200 <= status <= 299
}

/// Whether an HTTP status code reports success.
pub fn is_success_status(status: u16) -> (r: bool)
    ensures
        r == is_success_spec(status),
{
    200 <= status && status <= 299
}

impl Authenticator {
    pub fn new(github_token: String) -> (r: Authenticator)
        ensures
            r.secret() == github_token@,
    {
        Authenticator { github_token }
    }

    pub closed spec fn secret(&self) -> Seq<char> {
        self.github_token@
    }

    /// The headers of the token exchange.
    pub fn request_headers(&self) -> (r: Vec<(String, String)>)
        ensures
            pairs_view(r@) == token_request_header_pairs(self.secret()),
    {
        let mut headers: Vec<(String, String)> = Vec::new();
        push_header(&mut headers, "Authorization", String::from_str("token ").concat(self.github_token.as_str()));
        push_header(&mut headers, "Accept", String::from_str("application/json"));
        extend_headers(&mut headers, version_headers());
        assert(pairs_view(headers@) =~= token_request_header_pairs(self.secret()));
        headers
    }

    /// What a token exchange yields, given the response status and the
    /// credential decoded from its body (`None` where the body did not decode).
    /// A failed exchange is not retried here: the next request tries again.
    pub fn auth(&self, status: u16, decoded: Option<Token>) -> (r: Result<Token, AuthError>)
        ensures
            !is_success_spec(status) ==> r == Err::<Token, AuthError>(AuthError::Status(status)),
            is_success_spec(status) ==> match decoded {
                Some(t) => r == Ok::<Token, AuthError>(t),
                None => r == Err::<Token, AuthError>(AuthError::Decode),
            },
    {
        if !is_success_status(status) {
            return Err(AuthError::Status(status));
        }
        match decoded {
            Some(t) => Ok(t),
            None => Err(AuthError::Decode),
        }
    }
}

/// What the cache does with one request.
pub enum Lookup {
    /// The cached credential is valid: reply with this secret.
    Ready(String),
    /// The cached credential has expired: exchange the secret for a new one.
    Refresh,
}

/// The one credential shared by every caller, replaced wholesale on refresh.
///
/// Requests are served one at a time and in arrival order; a request that
/// finds the credential expired refreshes it before the next request is
/// looked at, so at most one refresh is ever in flight.
pub struct CredentialCache {
    pub current: Token,
}

/// The state after one request, whether it refreshed, and what its caller got.
pub struct Served {
    pub current: Credential,
    pub refreshed: bool,
    pub reply: Option<Seq<char>>,
}

/// One request at second `now`; `fetched` is what a refresh would return
/// (`None` for a failed exchange).
pub open spec fn serve(current: Credential, now: u64, fetched: Option<Credential>) -> Served {
    if current.valid_at(now) {
        Served { current, refreshed: false, reply: Some(current.secret) }
    } else {
        match fetched {
            Some(c) => Served { current: c, refreshed: true, reply: Some(c.secret) },
            None => Served { current, refreshed: true, reply: None },
        }
    }
}

/// The state after a run of requests, the number of refreshes, and each reply.
pub struct CacheRun {
    pub current: Credential,
    pub refreshes: nat,
    pub replies: Seq<Option<Seq<char>>>,
}

/// Serves requests at the seconds `nows`, in order. Each refresh takes the
/// next outcome of `fetches`; once they run out, a refresh fails.
pub open spec fn serve_all(current: Credential, nows: Seq<u64>, fetches: Seq<Option<Credential>>) -> CacheRun
    decreases nows.len(),
{
    if nows.len() == 0 {
        CacheRun { current, refreshes: 0, replies: seq![] }
    } else {
        let fetched = if fetches.len() > 0 { fetches[0] } else { None };
        let s = serve(current, nows[0], fetched);
        let rest_fetches = if s.refreshed && fetches.len() > 0 { fetches.drop_first() } else { fetches };
        let rest = serve_all(s.current, nows.drop_first(), rest_fetches);
        CacheRun {
            current: rest.current,
            refreshes: rest.refreshes + if s.refreshed { 1nat } else { 0nat },
            replies: seq![s.reply] + rest.replies,
        }
    }
}

/// The credential a refresh outcome carries, if any.
pub open spec fn fetched_view(fetched: Result<Token, AuthError>) -> Option<Credential> {
    match fetched {
        Ok(t) => Some(t@),
        Err(_) => None,
    }
}

impl CredentialCache {
    /// A cache whose credential is empty and already expired at `now`.
    pub fn new(now: u64) -> (r: CredentialCache)
        ensures
            r.current@.secret == Seq::<char>::empty(),
            r.current@.expires_at == now,
            !r.current@.valid_at(now),
    {
        CredentialCache { current: Token { token: String::new(), expires_at: now } }
    }

    /// Looks at one request at second `now`.
    pub fn lookup(&self, now: u64) -> (r: Lookup)
        ensures
            self.current@.valid_at(now) ==> (r matches Lookup::Ready(s) && s@ == self.current@.secret),
            !self.current@.valid_at(now) ==> r is Refresh,
            r is Refresh <==> serve(self.current@, now, None).refreshed,
            r matches Lookup::Ready(s) ==> forall|f: Option<Credential>| #[trigger] serve(self.current@, now, f)
                == (Served { current: self.current@, refreshed: false, reply: Some(s@) }),
    {
        if self.current.is_available_at(now) {
            Lookup::Ready(self.current.token.clone())
        } else {
            Lookup::Refresh
        }
    }

    /// Takes the outcome of a refresh: a new credential replaces the old one
    /// and is the reply; a failure keeps the old one and leaves the caller
    /// without a reply. After a lookup that asked for the refresh, this is
    /// one step of `serve`.
    pub fn complete_refresh(&mut self, fetched: Result<Token, AuthError>) -> (r: Option<String>)
        ensures
            match fetched {
                Ok(t) => final(self).current@ == t@ && (r matches Some(s) && s@ == t@.secret),
                Err(_) => final(self).current@ == old(self).current@ && r is None,
            },
            forall|now: u64| !old(self).current@.valid_at(now) ==> #[trigger] serve(old(self).current@, now, fetched_view(fetched))
                == (Served { current: final(self).current@, refreshed: true, reply: opt_view(r) }),
    {
        match fetched {
            Ok(t) => {
                let reply = t.token.clone();
                self.current = t;
                Some(reply)
            },
            Err(_) => None,
        }
    }
}

/// While the cached credential stays valid, any number of requests are
/// answered with it and no refresh is made.
pub proof fn lemma_cache_reuse(current: Credential, nows: Seq<u64>, fetches: Seq<Option<Credential>>)
    requires
        forall|i: int| 0 <= i < nows.len() ==> current.valid_at(#[trigger] nows[i]),
    ensures
        serve_all(current, nows, fetches).refreshes == 0,
        serve_all(current, nows, fetches).current == current,
        serve_all(current, nows, fetches).replies == Seq::new(nows.len(), |i: int| Some(current.secret)),
    decreases nows.len(),
{
    if nows.len() > 0 {
        assert(current.valid_at(nows[0]));
        let rest = nows.drop_first();
        assert forall|i: int| 0 <= i < rest.len() implies current.valid_at(#[trigger] rest[i]) by {
            assert(rest[i] == nows[i + 1]);
        }
        lemma_cache_reuse(current, rest, fetches);
        assert(serve_all(current, nows, fetches).replies =~= Seq::new(nows.len(), |i: int| Some(current.secret)));
    }
}

/// Requests that arrive together at an expired cache cause exactly one
/// refresh, when it succeeds with a credential valid at that moment, and
/// every one of them receives that credential.
pub proof fn lemma_single_flight(current: Credential, now: u64, count: nat, fetches: Seq<Option<Credential>>)
    requires
        !current.valid_at(now),
        count >= 1,
        fetches.len() >= 1,
        fetches[0] matches Some(c) && c.valid_at(now),
    ensures
        serve_all(current, Seq::new(count, |i: int| now), fetches).refreshes == 1,
        serve_all(current, Seq::new(count, |i: int| now), fetches).replies
            == Seq::new(count, |i: int| Some(fetches[0]->Some_0.secret)),
{
    let c = fetches[0]->Some_0;
    let nows = Seq::new(count, |i: int| now);
    let rest = nows.drop_first();
    assert(rest =~= Seq::new((count - 1) as nat, |i: int| now));
    lemma_cache_reuse(c, rest, fetches.drop_first());
    assert(serve_all(current, nows, fetches).replies =~= Seq::new(count, |i: int| Some(c.secret)));
}

} // verus!
