//! The credential lifecycle: which token to use, when to refresh, and how
//! each outcome moves the persisted token set.
//!
//! The interactive consent flow and the refresh round-trip happen outside
//! the library; their outcomes come back in as plain values, and every
//! decision about them is made — and checked — here.

use vstd::prelude::*;
use crate::errors::CliError;

verus! {

/// A persisted token set: the bearer token, the refresh token, and the
/// access token's expiry as seconds since the epoch.
pub struct TokenSet {
    pub access_token: String,
    pub refresh_token: String,
    pub expires_at: i64,
}

/// A non-expired access token is usable without any network round-trip.
pub open spec fn token_fresh(t: TokenSet, now: int) -> bool {
    now < t.expires_at
}

/// The authenticator's states. `AwaitingUserConsent` and `Refreshing` are
/// occupied only while the blocking consent flow or the refresh
/// round-trip is in flight; between calls the persisted tokens determine
/// one of the other three.
pub enum AuthPhase {
    Uninitialized,
    AwaitingUserConsent,
    Authenticated,
    Expired,
    Refreshing,
}

/// The resting phase for a persisted token set at a given time.
pub open spec fn phase_of(tokens: Option<TokenSet>, now: int) -> AuthPhase {
    match tokens {
        None => AuthPhase::Uninitialized,
        Some(t) => if token_fresh(t, now) {
            AuthPhase::Authenticated
        } else {
            AuthPhase::Expired
        },
    }
}

/// What to do before the next API call.
pub enum AccessDecision {
    /// The stored access token is still fresh: attach it as is.
    UseToken(String),
    /// The access token expired: run one refresh round-trip with this
    /// refresh token.
    RefreshWith(String),
    /// Nothing is persisted: only an explicit login may start the
    /// interactive flow.
    LoginRequired,
}

/// The in-memory owner of the persisted token set: the only writer of the
/// token file, mirrored here as a plain value.
pub struct Authenticator {
    pub tokens: Option<TokenSet>,
}

impl Authenticator {
    /// Starts from whatever token set was persisted, if any.
    pub fn new(persisted: Option<TokenSet>) -> (r: Authenticator)
        ensures
            r.tokens == persisted,
    {
        Authenticator { tokens: persisted }
    }

    /// Decides how the next call authenticates: fresh tokens are used as
    /// they are, expired ones ask for exactly one refresh, and an empty
    /// store demands an explicit login — never the interactive flow.
    pub fn check_access(&self, now: i64) -> (d: AccessDecision)
        ensures
            ({
                match self.tokens {
                    None => d == AccessDecision::LoginRequired,
                    Some(t) => if token_fresh(t, now as int) {
                        d == AccessDecision::UseToken(t.access_token)
                    } else {
                        d == AccessDecision::RefreshWith(t.refresh_token)
                    },
                }
            }),
            d is UseToken <==> phase_of(self.tokens, now as int) is Authenticated,
            d is RefreshWith <==> phase_of(self.tokens, now as int) is Expired,
            d is LoginRequired <==> phase_of(self.tokens, now as int) is Uninitialized,
    {
        match &self.tokens {
            None => AccessDecision::LoginRequired,
            Some(t) => {
                if now < t.expires_at {
                    AccessDecision::UseToken(t.access_token.clone())
                } else {
                    AccessDecision::RefreshWith(t.refresh_token.clone())
                }
            },
        }
    }

    /// Applies the outcome of the single refresh round-trip: success
    /// replaces the persisted token set, failure surfaces as
    /// `NotAuthenticated` and leaves the previous tokens untouched —
    /// refreshes are never retried.
    pub fn apply_refresh(&mut self, outcome: Option<TokenSet>) -> (r: Result<String, CliError>)
        ensures
            ({
                match outcome {
                    None => *final(self) == *old(self) && r == Err::<String, CliError>(
                        CliError::NotAuthenticated,
                    ),
                    Some(t) => final(self).tokens == Some(t) && r is Ok && r->Ok_0
                        == t.access_token,
                }
            }),
    {
        match outcome {
            None => Err(CliError::NotAuthenticated),
            Some(t) => {
                let access = t.access_token.clone();
                self.tokens = Some(t);
                Ok(access)
            },
        }
    }

    /// Applies the outcome of the interactive consent flow: the exchanged
    /// token set is persisted, and an abandoned or rejected flow is an
    /// `AuthFlowError` that must be re-invoked by the caller.
    pub fn complete_login(&mut self, flow_outcome: Option<TokenSet>) -> (r: Result<(), CliError>)
        ensures
            ({
                match flow_outcome {
                    None => *final(self) == *old(self) && r == Err::<(), CliError>(
                        CliError::AuthFlowError,
                    ),
                    Some(t) => final(self).tokens == Some(t) && r is Ok,
                }
            }),
    {
        match flow_outcome {
            None => Err(CliError::AuthFlowError),
            Some(t) => {
                self.tokens = Some(t);
                Ok(())
            },
        }
    }

    /// The token to attach to the next call, refreshing at most once.
    /// `refresh_outcome` is what the single refresh round-trip returned
    /// when one was needed; it is ignored while the stored token is
    /// fresh. With nothing persisted this fails rather than start the
    /// interactive flow.
    pub fn get_authenticated_client(&mut self, now: i64, refresh_outcome: Option<TokenSet>) -> (r:
        Result<String, CliError>)
        ensures
            ({
                match old(self).tokens {
                    None => r == Err::<String, CliError>(CliError::NotAuthenticated)
                        && *final(self) == *old(self),
                    Some(t) => if token_fresh(t, now as int) {
                        r is Ok && r->Ok_0 == t.access_token && *final(self) == *old(self)
                    } else {
                        match refresh_outcome {
                            None => r == Err::<String, CliError>(CliError::NotAuthenticated)
                                && *final(self) == *old(self),
                            Some(nt) => r is Ok && r->Ok_0 == nt.access_token
                                && final(self).tokens == Some(nt),
                        }
                    },
                }
            }),
    {
        let decision = self.check_access(now);
        match decision {
            AccessDecision::LoginRequired => Err(CliError::NotAuthenticated),
            AccessDecision::UseToken(access) => Ok(access),
            AccessDecision::RefreshWith(_) => self.apply_refresh(refresh_outcome),
        }
    }
}

} // verus!
