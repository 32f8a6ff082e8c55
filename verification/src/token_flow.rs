//! The token lifecycle: the decision logic that hands out a valid
//! credential, consulting the store, the cache collaborator and the
//! transport collaborator in that order.
//!
//! The collaborators themselves perform I/O and live outside this crate;
//! their answers are handed in as values, so every decision here is
//! verified for every answer they could give. A driver runs the loop:
//! it asks `start_get_token` what to do, performs the cache read or the
//! network fetch, and feeds the outcome back in.

use vstd::prelude::*;
use crate::token::Token;
use crate::ClientError;

verus! {

/// What the cache collaborator produced on a read.
///
/// An absent cache entry is `Missing`, which is not an error; a present
/// but unparseable one is `Malformed`, which is surfaced as
/// `ClientError::Cache`.
#[derive(Clone, Debug)]
pub enum CacheReadOutcome {
    Missing,
    Malformed,
    Parsed(Token),
}

/// The first decision of a "get token" call.
#[derive(Clone, Debug)]
pub enum TokenStep {
    /// The store already holds a valid credential: return it, no I/O.
    Ready(Token),
    /// Consult the cache collaborator next.
    ReadCache,
    /// Perform the credential fetch next.
    Fetch,
}

/// The decision taken on the cache collaborator's answer.
#[derive(Clone, Debug)]
pub enum CacheStep {
    /// Adopt this cached credential into the store and return it.
    Adopt(Token),
    /// The cache held nothing usable: perform the credential fetch.
    Fetch,
    /// The cache was present but unreadable: surface the error.
    Fail(ClientError),
}

/// Which operations a "get token" call performed.
#[derive(Clone, Copy, Debug, PartialEq, Eq, Structural)]
pub struct GetTokenTrace {
    /// The cache collaborator was read.
    pub cache_read: bool,
    /// A credential fetch was performed against the transport
    /// collaborator.
    pub fetched: bool,
    /// The user callback was invoked with a freshly fetched credential.
    pub callback_invoked: bool,
    /// The fetched credential was persisted to the cache collaborator.
    pub cache_written: bool,
}

/// Whether the store holds a credential that is valid at `now`.
pub open spec fn spec_has_valid(stored: Option<Token>, now: i64) -> bool {
    match stored {
        Some(t) => t.spec_valid_at(now),
        None => false,
    }
}

/// What a fetch followed by the optional user callback yields: a callback
/// failure aborts the fetch, and a fetch failure is propagated untouched.
pub open spec fn spec_after_fetch(
    fetch: Result<Token, ClientError>,
    callback: Option<Result<(), ClientError>>,
) -> Result<Token, ClientError> {
    match fetch {
        Err(e) => Err(e),
        Ok(t) => match callback {
            Some(Err(e)) => Err(e),
            _ => Ok(t),
        },
    }
}

/// The complete "get token" decision, as a function of the store
/// snapshot, the instant, the configuration, and what each collaborator
/// would answer if consulted. Yields the returned result, the new store
/// content, and which operations were performed.
pub open spec fn spec_get_token(
    stored: Option<Token>,
    now: i64,
    token_cached: bool,
    cache: CacheReadOutcome,
    fetch: Result<Token, ClientError>,
    callback: Option<Result<(), ClientError>>,
) -> (Result<Token, ClientError>, Option<Token>, GetTokenTrace) {
    if spec_has_valid(stored, now) {
        (
            Ok(stored->0),
            stored,
            GetTokenTrace {
                cache_read: false,
                fetched: false,
                callback_invoked: false,
                cache_written: false,
            },
        )
    } else if token_cached {
        match cache {
            CacheReadOutcome::Malformed => (
                Err(ClientError::Cache),
                stored,
                GetTokenTrace {
                    cache_read: true,
                    fetched: false,
                    callback_invoked: false,
                    cache_written: false,
                },
            ),
            CacheReadOutcome::Parsed(c) => if c.spec_valid_at(now) {
                (
                    Ok(c),
                    Some(c),
                    GetTokenTrace {
                        cache_read: true,
                        fetched: false,
                        callback_invoked: false,
                        cache_written: false,
                    },
                )
            } else {
                spec_fetch_branch(stored, token_cached, fetch, callback, true)
            },
            CacheReadOutcome::Missing => spec_fetch_branch(
                stored,
                token_cached,
                fetch,
                callback,
                true,
            ),
        }
    } else {
        spec_fetch_branch(stored, token_cached, fetch, callback, false)
    }
}

/// The tail of the decision once a fetch is performed.
pub open spec fn spec_fetch_branch(
    stored: Option<Token>,
    token_cached: bool,
    fetch: Result<Token, ClientError>,
    callback: Option<Result<(), ClientError>>,
    cache_read: bool,
) -> (Result<Token, ClientError>, Option<Token>, GetTokenTrace) {
    let callback_invoked = fetch is Ok && callback is Some;
    match spec_after_fetch(fetch, callback) {
        Err(e) => (
            Err(e),
            stored,
            GetTokenTrace { cache_read, fetched: true, callback_invoked, cache_written: false },
        ),
        Ok(t) => (
            Ok(t),
            Some(t),
            GetTokenTrace {
                cache_read,
                fetched: true,
                callback_invoked,
                cache_written: token_cached,
            },
        ),
    }
}

/// The first decision: a valid stored credential is returned unchanged
/// with no I/O; otherwise the cache is consulted when enabled, else the
/// fetch is performed directly.
pub fn start_get_token(stored: &Option<Token>, now: i64, token_cached: bool) -> (s: TokenStep)
    ensures
        spec_has_valid(*stored, now) ==> s == TokenStep::Ready(stored->0),
        !spec_has_valid(*stored, now) && token_cached ==> s == TokenStep::ReadCache,
        !spec_has_valid(*stored, now) && !token_cached ==> s == TokenStep::Fetch,
{
    match stored {
        Some(t) => {
            if !t.is_expired_at(now) {
                return TokenStep::Ready(t.clone());
            }
        },
        None => {},
    }
    if token_cached {
        TokenStep::ReadCache
    } else {
        TokenStep::Fetch
    }
}

/// The decision on the cache collaborator's answer: a valid persisted
/// credential is adopted; an absent or expired one leads to a fetch; a
/// malformed one is surfaced, never silently treated as "must fetch".
pub fn after_cache_read(outcome: CacheReadOutcome, now: i64) -> (s: CacheStep)
    ensures
        match outcome {
            CacheReadOutcome::Malformed => s == CacheStep::Fail(ClientError::Cache),
            CacheReadOutcome::Missing => s == CacheStep::Fetch,
            CacheReadOutcome::Parsed(c) => s == if c.spec_valid_at(now) {
                CacheStep::Adopt(c)
            } else {
                CacheStep::Fetch
            },
        },
{
    match outcome {
        CacheReadOutcome::Malformed => CacheStep::Fail(ClientError::Cache),
        CacheReadOutcome::Missing => CacheStep::Fetch,
        CacheReadOutcome::Parsed(c) => {
            if c.is_expired_at(now) {
                CacheStep::Fetch
            } else {
                CacheStep::Adopt(c)
            }
        },
    }
}

/// The decision on the transport collaborator's answer and the optional
/// user callback: errors from either propagate and abort the fetch.
pub fn after_fetch(fetch: Result<Token, ClientError>, callback: Option<Result<(), ClientError>>)
    -> (r: Result<Token, ClientError>)
    ensures
        r == spec_after_fetch(fetch, callback),
{
    match fetch {
        Err(e) => Err(e),
        Ok(t) => match callback {
            Some(Err(e)) => Err(e),
            _ => Ok(t),
        },
    }
}

/// One complete "get token" call over a store snapshot, with the
/// collaborators' answers supplied as values: `cache` is what a cache
/// read would produce, `fetch` what the credential fetch would produce,
/// and `callback` what the user callback would produce (absent when no
/// callback is configured). Consults them only as the decision demands,
/// updates the store as the lifecycle prescribes, and reports which
/// operations were performed.
pub fn get_token_with(
    store: &mut Option<Token>,
    now: i64,
    token_cached: bool,
    cache: CacheReadOutcome,
    fetch: Result<Token, ClientError>,
    callback: Option<Result<(), ClientError>>,
) -> (res: (Result<Token, ClientError>, GetTokenTrace))
    ensures
        (res.0, *final(store), res.1) == spec_get_token(
            *old(store),
            now,
            token_cached,
            cache,
            fetch,
            callback,
        ),
{
    match start_get_token(store, now, token_cached) {
        TokenStep::Ready(t) => (
            Ok(t),
            GetTokenTrace {
                cache_read: false,
                fetched: false,
                callback_invoked: false,
                cache_written: false,
            },
        ),
        TokenStep::ReadCache => {
            match after_cache_read(cache, now) {
                CacheStep::Fail(e) => (
                    Err(e),
                    GetTokenTrace {
                        cache_read: true,
                        fetched: false,
                        callback_invoked: false,
                        cache_written: false,
                    },
                ),
                CacheStep::Adopt(c) => {
                    *store = Some(c.clone());
                    (
                        Ok(c),
                        GetTokenTrace {
                            cache_read: true,
                            fetched: false,
                            callback_invoked: false,
                            cache_written: false,
                        },
                    )
                },
                CacheStep::Fetch => fetch_and_adopt(store, token_cached, fetch, callback, true),
            }
        },
        TokenStep::Fetch => fetch_and_adopt(store, token_cached, fetch, callback, false),
    }
}

/// The executable tail of the decision once a fetch is performed: a
/// fetched credential is adopted into the store whole, and persisted to
/// the cache exactly when caching is enabled.
fn fetch_and_adopt(
    store: &mut Option<Token>,
    token_cached: bool,
    fetch: Result<Token, ClientError>,
    callback: Option<Result<(), ClientError>>,
    cache_read: bool,
) -> (res: (Result<Token, ClientError>, GetTokenTrace))
    ensures
        (res.0, *final(store), res.1) == spec_fetch_branch(
            *old(store),
            token_cached,
            fetch,
            callback,
            cache_read,
        ),
{
    let callback_invoked = fetch.is_ok() && callback.is_some();
    match after_fetch(fetch, callback) {
        Err(e) => (
            Err(e),
            GetTokenTrace { cache_read, fetched: true, callback_invoked, cache_written: false },
        ),
        Ok(t) => {
            *store = Some(t.clone());
            (
                Ok(t),
                GetTokenTrace {
                    cache_read,
                    fetched: true,
                    callback_invoked,
                    cache_written: token_cached,
                },
            )
        },
    }
}

/// Token reuse law: once a call has fetched a credential that is still
/// valid at the next call's instant, that next call returns it from the
/// store with no fetch, no cache read, no callback and no cache write —
/// whatever the collaborators would have answered.
pub proof fn lemma_token_reuse(
    stored: Option<Token>,
    now1: i64,
    now2: i64,
    token_cached: bool,
    cache1: CacheReadOutcome,
    t: Token,
    callback1: Option<Result<(), ClientError>>,
    cache2: CacheReadOutcome,
    fetch2: Result<Token, ClientError>,
    callback2: Option<Result<(), ClientError>>,
)
    requires
        !spec_has_valid(stored, now1),
        token_cached ==> (cache1 matches CacheReadOutcome::Missing || (
        cache1 matches CacheReadOutcome::Parsed(c) && !c.spec_valid_at(now1))),
        !(callback1 matches Some(Err(_))),
        t.spec_valid_at(now2),
    ensures
        spec_get_token(stored, now1, token_cached, cache1, Ok(t), callback1).0 == Ok::<
            Token,
            ClientError,
        >(t),
        spec_get_token(stored, now1, token_cached, cache1, Ok(t), callback1).2.fetched,
        ({
            let store1 = spec_get_token(stored, now1, token_cached, cache1, Ok(t), callback1).1;
            let second = spec_get_token(store1, now2, token_cached, cache2, fetch2, callback2);
            &&& second.0 == Ok::<Token, ClientError>(t)
            &&& second.1 == store1
            &&& second.2 == (GetTokenTrace {
                cache_read: false,
                fetched: false,
                callback_invoked: false,
                cache_written: false,
            })
        }),
{
}

/// Token expiry law: when the stored credential is no longer valid at
/// `now` — its expiry lies in the past — the call never hands it back
/// unrefreshed: it consults the cache when caching is enabled, and
/// performs a fresh fetch otherwise.
pub proof fn lemma_token_expiry(
    t: Token,
    now: i64,
    token_cached: bool,
    cache: CacheReadOutcome,
    fetch: Result<Token, ClientError>,
    callback: Option<Result<(), ClientError>>,
)
    requires
        !t.spec_valid_at(now),
    ensures
        token_cached ==> spec_get_token(Some(t), now, token_cached, cache, fetch, callback)
            .2.cache_read,
        !token_cached ==> spec_get_token(Some(t), now, token_cached, cache, fetch, callback)
            .2.fetched,
{
}

/// Concurrent-acquire law, data part: every credential a call returns or
/// writes into the store is one of the collaborator-produced credentials
/// in its entirety — the stored one, the cached one, or the fetched one —
/// never a mixture of two. The atomicity of the store write itself is the
/// mutual-exclusion wrapper's charge.
pub proof fn lemma_no_torn_credential(
    stored: Option<Token>,
    now: i64,
    token_cached: bool,
    cache: CacheReadOutcome,
    fetch: Result<Token, ClientError>,
    callback: Option<Result<(), ClientError>>,
)
    ensures
        ({
            let r = spec_get_token(stored, now, token_cached, cache, fetch, callback).0;
            r matches Ok(t) ==> {
                ||| stored == Some(t)
                ||| cache matches CacheReadOutcome::Parsed(c) && c == t
                ||| fetch == Ok::<Token, ClientError>(t)
            }
        }),
        ({
            let st = spec_get_token(stored, now, token_cached, cache, fetch, callback).1;
            st matches Some(t) ==> {
                ||| stored == Some(t)
                ||| cache matches CacheReadOutcome::Parsed(c) && c == t
                ||| fetch == Ok::<Token, ClientError>(t)
            }
        }),
{
}

/// Cache-corruption law: a cache collaborator that reports a parse
/// failure on read makes the call surface `ClientError::Cache`, with no
/// silent fall-through to a network fetch and no store update.
pub proof fn lemma_cache_corruption_surfaces(
    stored: Option<Token>,
    now: i64,
    fetch: Result<Token, ClientError>,
    callback: Option<Result<(), ClientError>>,
)
    requires
        !spec_has_valid(stored, now),
    ensures
        ({
            let res = spec_get_token(stored, now, true, CacheReadOutcome::Malformed, fetch, callback);
            &&& res.0 == Err::<Token, ClientError>(ClientError::Cache)
            &&& res.1 == stored
            &&& !res.2.fetched
            &&& !res.2.cache_written
        }),
{
}

} // verus!
