//! Bearer credentials: an access token with an absolute expiry instant.

use vstd::prelude::*;

verus! {

/// A bearer credential granting API access.
///
/// A credential is valid at an instant `now` when its expiry lies strictly
/// in the future; it is expired once its expiry has passed, and a
/// credential without an expiry instant is treated as expired. Instants
/// are seconds since the Unix epoch.
#[derive(Debug)]
pub struct Token {
    /// The bearer value attached to outbound requests.
    pub access_token: String,
    /// The validity window the credential was issued with, in seconds.
    pub expires_in: i64,
    /// Absolute expiry instant, in seconds since the Unix epoch.
    pub expires_at: Option<i64>,
    /// Optional refresh handle; absent in the client-credentials flow.
    pub refresh_token: Option<String>,
}

/// The headers a credential contributes to an outbound request.
#[derive(Clone, Debug)]
pub struct AuthHeaders {
    /// The value sent under the `authorization` header name.
    pub authorization: String,
}

impl Clone for Token {
    /// A credential is cloned whole: the copy equals the value it was
    /// made from, so a caller never observes a partially copied
    /// credential.
    fn clone(&self) -> (r: Self)
        ensures
            r == *self,
    {
        let r = Token {
            access_token: self.access_token.clone(),
            expires_in: self.expires_in,
            expires_at: self.expires_at,
            refresh_token: self.refresh_token.clone(),
        };
        proof {
            assert(cloned::<Option<String>>(self.refresh_token, r.refresh_token));
            assert(r =~= *self);
        }
        r
    }
}

impl Token {
    /// A credential is usable at `now` exactly when its expiry lies
    /// strictly in the future.
    pub open spec fn spec_valid_at(&self, now: i64) -> bool {
        match self.expires_at {
            Some(e) => now < e,
            None => false,
        }
    }

    /// Whether the credential is expired at the instant `now`.
    pub fn is_expired_at(&self, now: i64) -> (r: bool)
        ensures
            r == !self.spec_valid_at(now),
    {
        match self.expires_at {
            Some(e) => now >= e,
            None => true,
        }
    }

    /// Whether the credential is expired at the current time.
    ///
    /// The instant is read from the system clock, so only what holds of
    /// every clock value can be promised: a credential without an expiry
    /// instant is always expired. `is_expired_at` carries the exact
    /// contract for a known instant.
    pub fn is_expired(&self) -> (r: bool)
        ensures
            self.expires_at is None ==> r,
    {
        let now = crate::token::current_unix_time();
        self.is_expired_at(now)
    }

    /// The request headers carrying this credential as a bearer value.
    pub fn auth_headers(&self) -> (r: AuthHeaders)
        ensures
            r.authorization@ == "Bearer "@ + self.access_token@,
    {
        let mut value = String::from_str("Bearer ");
        value.append(self.access_token.as_str());
        AuthHeaders { authorization: value }
    }
}

/// Relies on `chrono::Utc::now` for the current instant, converted with
/// `DateTime::timestamp` to seconds since the Unix epoch. The result
/// depends on the system clock, so nothing is stated of it.
#[verifier::external_body]
pub(crate) fn current_unix_time() -> i64 {
    chrono::Utc::now().timestamp()
}

} // verus!
