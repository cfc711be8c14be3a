//! The auth session's token state: anonymous mode, the current token with
//! its expiry, and the decision when to refresh.
//!
//! The login exchange itself is a transport matter; the session records
//! its outcomes and answers two questions exactly: which token a request
//! carries now, and whether a refresh is due.

use vstd::prelude::*;

verus! {

/// How far into the token's validity window the refresh is scheduled, in
/// tenths: a refresh is due once eight tenths of the lifetime have
/// passed, well before expiry.
pub const REFRESH_AFTER_TENTHS: u64 = 8;

/// The auth session state.
pub struct AuthSession {
    /// Whether credentials were supplied; without them the session stays
    /// anonymous and requests proceed without a token.
    pub has_credentials: bool,
    /// The current token, present after the first successful login.
    pub token: Option<String>,
    /// The clock reading at which the current token expires.
    pub expiry: u64,
    /// The clock reading from which a refresh is due.
    pub refresh_at: u64,
    /// Consecutive failed logins since the last success, for backoff.
    pub failures: u64,
}

impl AuthSession {
    /// A session; with no credentials it is anonymous and never asks to
    /// refresh.
    pub fn new(has_credentials: bool) -> (r: AuthSession)
        ensures
            r.has_credentials == has_credentials,
            r.token is None,
            r.failures == 0,
    {
        AuthSession { has_credentials, token: None, expiry: 0, refresh_at: 0, failures: 0 }
    }

    /// Record a successful login or refresh: the token is replaced, the
    /// expiry set a lifetime ahead, and the next refresh scheduled at
    /// eight tenths of the lifetime.
    pub fn on_login_success(&mut self, token: String, lifetime: u64, now: u64)
        requires
            now + lifetime <= u64::MAX,
        ensures
            final(self).has_credentials == old(self).has_credentials,
            final(self).token matches Some(t) && t@ == token@,
            final(self).expiry == now + lifetime,
            final(self).refresh_at == now + (lifetime / 10) * REFRESH_AFTER_TENTHS,
            final(self).failures == 0,
    {
        proof {
            assert((lifetime / 10) * REFRESH_AFTER_TENTHS <= lifetime) by (nonlinear_arith)
                requires
                    REFRESH_AFTER_TENTHS == 8,
            ;
        }
        self.expiry = now + lifetime;
        self.refresh_at = now + (lifetime / 10) * REFRESH_AFTER_TENTHS;
        self.token = Some(token);
        self.failures = 0;
    }

    /// Record a failed login or refresh: the previous token, possibly
    /// expired, stays in place until a refresh succeeds; only the failure
    /// count moves.
    pub fn on_login_failure(&mut self)
        ensures
            final(self).has_credentials == old(self).has_credentials,
            final(self).token == old(self).token,
            final(self).expiry == old(self).expiry,
            final(self).refresh_at == old(self).refresh_at,
            final(self).failures == (if old(self).failures == u64::MAX {
                u64::MAX as int
            } else {
                old(self).failures + 1
            }),
    {
        if self.failures < u64::MAX {
            self.failures = self.failures + 1;
        }
    }

    /// The token a request issued now carries: none in anonymous mode or
    /// before the first login.
    pub fn token_for_request(&self) -> (r: Option<String>)
        ensures
            match r {
                Some(t) => self.token matches Some(u) && t@ == u@,
                None => self.token is None,
            },
    {
        match &self.token {
            Some(t) => Some(t.clone()),
            None => None,
        }
    }

    /// Whether a refresh is due: the session has credentials, and either
    /// no token was acquired yet or the refresh point has been reached.
    pub fn needs_refresh(&self, now: u64) -> (r: bool)
        ensures
            r == (self.has_credentials && (self.token is None || now >= self.refresh_at)),
    {
        self.has_credentials && (self.token.is_none() || now >= self.refresh_at)
    }
}

} // verus!
