//! The client-credentials flow client: it obtains a token from a pair of
//! client credentials, with no user interaction, and caches it in a shared
//! token store.

use vstd::prelude::*;
use crate::sync::Mutex;
use crate::token::Token;
use crate::token_flow::{after_fetch, spec_after_fetch, CacheReadOutcome};
use crate::ClientError;

verus! {

/// Configuration the client reads: base locations, and whether the token
/// cache collaborator is consulted at all.
#[derive(Clone, Debug)]
pub struct Config {
    /// Base location prefixed to every API path.
    pub api_base_url: String,
    /// Base location prefixed to every authentication path.
    pub auth_base_url: String,
    /// Where the cache collaborator persists the token.
    pub cache_path: String,
    /// Enables the cache read and write around a token fetch.
    pub token_cached: bool,
}

/// The configuration the client starts from when none is supplied.
pub open spec fn spec_is_default_config(c: Config) -> bool {
    &&& c.api_base_url@ == "https://api.spotify.com/v1/"@
    &&& c.auth_base_url@ == "https://accounts.spotify.com/"@
    &&& c.cache_path@ == ".spotify_token_cache.json"@
    &&& c.token_cached == false
}

impl Default for Config {
    fn default() -> (c: Config)
        ensures
            spec_is_default_config(c),
    {
        Config {
            api_base_url: String::from_str("https://api.spotify.com/v1/"),
            auth_base_url: String::from_str("https://accounts.spotify.com/"),
            cache_path: String::from_str(".spotify_token_cache.json"),
            token_cached: false,
        }
    }
}

/// The client credentials a token is requested with.
#[derive(Clone, Debug)]
pub struct Credentials {
    pub id: String,
    /// Absent for flows that never authenticate; the client-credentials
    /// flow requires it.
    pub secret: Option<String>,
}

impl Default for Credentials {
    fn default() -> (c: Credentials)
        ensures
            c.id@ == Seq::<char>::empty(),
            c.secret is None,
    {
        Credentials { id: String::new(), secret: None }
    }
}

/// Joining a relative path onto a base: a separating `/` is inserted
/// unless the base already ends with one.
pub open spec fn spec_joined_url(base: Seq<char>, rel: Seq<char>) -> Seq<char> {
    if base.len() > 0 && base.last() == '/' {
        base + rel
    } else {
        base + seq!['/'] + rel
    }
}

/// Appends `rel` to `base`, inserting a `/` separator unless the base
/// already ends with one.
fn join_base_url(base: &String, rel: &str) -> (r: String)
    ensures
        r@ == spec_joined_url(base@, rel@),
{
    proof {
        reveal_strlit("/");
    }
    let len = base.as_str().unicode_len();
    let mut joined = base.clone();
    if len == 0 || base.as_str().get_char(len - 1) != '/' {
        joined.append("/");
    }
    joined.append(rel);
    joined
}

/// The client-credentials flow client.
///
/// The token store is an exclusively-mutable slot shared by every
/// in-flight request; the lifecycle logic in `token_flow` is the only
/// component that decides what is written into it.
#[derive(Debug)]
pub struct ClientCredsSpotify {
    pub config: Config,
    pub creds: Credentials,
    /// At most one current credential, behind the mutual-exclusion
    /// wrapper.
    pub token: Mutex<Option<Token>>,
}

impl Default for ClientCredsSpotify {
    fn default() -> (c: ClientCredsSpotify)
        ensures
            spec_is_default_config(c.config),
            c.creds.id@ == Seq::<char>::empty(),
            c.creds.secret is None,
    {
        ClientCredsSpotify {
            config: Config::default(),
            creds: Credentials::default(),
            token: Mutex::new(None),
        }
    }
}

impl ClientCredsSpotify {
    /// Builds a new client from a pair of client credentials.
    #[must_use]
    pub fn new(creds: Credentials) -> (c: Self)
        ensures
            c.creds == creds,
            spec_is_default_config(c.config),
    {
        ClientCredsSpotify { config: Config::default(), creds, token: Mutex::new(None) }
    }

    /// Builds a new client from an already generated token. Once that
    /// token expires, requests fail, as the client credentials are not
    /// known.
    #[must_use]
    pub fn from_token(token: Token) -> (c: Self)
        ensures
            spec_is_default_config(c.config),
            c.creds.id@ == Seq::<char>::empty(),
            c.creds.secret is None,
    {
        ClientCredsSpotify {
            config: Config::default(),
            creds: Credentials::default(),
            token: Mutex::new(Some(token)),
        }
    }

    /// Same as `new` but with an extra parameter to configure the client.
    #[must_use]
    pub fn with_config(creds: Credentials, config: Config) -> (c: Self)
        ensures
            c.creds == creds,
            c.config == config,
    {
        ClientCredsSpotify { config, creds, token: Mutex::new(None) }
    }

    /// The absolute location of an API path.
    pub fn api_url(&self, url: &str) -> (r: String)
        ensures
            r@ == spec_joined_url(self.config.api_base_url@, url@),
    {
        join_base_url(&self.config.api_base_url, url)
    }

    /// The absolute location of an authentication path.
    pub fn auth_url(&self, url: &str) -> (r: String)
        ensures
            r@ == spec_joined_url(self.config.auth_base_url@, url@),
    {
        join_base_url(&self.config.auth_base_url, url)
    }

    /// The decision taken on what the cache collaborator produced.
    ///
    /// Returns `Ok(None)` when caching is disabled in the configuration
    /// (the outcome is ignored), when the cache held nothing, and when the
    /// persisted credential is already expired at `now`; a malformed cache
    /// is surfaced as `ClientError::Cache`, never treated as absent.
    pub fn read_token_cache(&self, outcome: CacheReadOutcome, now: i64) -> (r: Result<
        Option<Token>,
        ClientError,
    >)
        ensures
            !self.config.token_cached ==> r == Ok::<Option<Token>, ClientError>(None),
            self.config.token_cached ==> match outcome {
                CacheReadOutcome::Missing => r == Ok::<Option<Token>, ClientError>(None),
                CacheReadOutcome::Malformed => r == Err::<Option<Token>, ClientError>(
                    ClientError::Cache,
                ),
                CacheReadOutcome::Parsed(t) => r == Ok::<Option<Token>, ClientError>(
                    if t.spec_valid_at(now) {
                        Some(t)
                    } else {
                        None
                    },
                ),
            },
    {
        if !self.config.token_cached {
            return Ok(None);
        }
        match outcome {
            CacheReadOutcome::Missing => Ok(None),
            CacheReadOutcome::Malformed => Err(ClientError::Cache),
            CacheReadOutcome::Parsed(t) => {
                if t.is_expired_at(now) {
                    Ok(None)
                } else {
                    Ok(Some(t))
                }
            },
        }
    }

    /// Obtains and stores the client access token, given what the
    /// transport collaborator and the optional user callback produced.
    ///
    /// On success the fetched credential is written into the token store
    /// in one atomic update; on failure the store is left alone. The
    /// caller persists the credential to the cache collaborator
    /// afterwards, when caching is enabled.
    pub fn request_token(&self, fetch: Result<Token, ClientError>, callback: Option<
        Result<(), ClientError>,
    >) -> (r: Result<(), ClientError>)
        ensures
            r == match spec_after_fetch(fetch, callback) {
                Ok(_) => Ok::<(), ClientError>(()),
                Err(e) => Err::<(), ClientError>(e),
            },
    {
        match after_fetch(fetch, callback) {
            Ok(t) => {
                self.token.set(Some(t));
                Ok(())
            },
            Err(e) => Err(e),
        }
    }
}

} // verus!
