//! OAuth token cache types: the data shape and the freshness check.

use vstd::prelude::*;
use crate::clock::{is_instant, unix_now, INSTANT_LIMIT};

verus! {

/// Refresh threshold in seconds: a token that expires sooner is treated as
/// expiring. Refreshing slightly early avoids a race where a request is sent
/// with a token that expires mid-flight.
pub const TOKEN_LEEWAY: i64 = 60;

#[derive(Debug)]
pub struct CachedToken {
    pub access_token: String,
    /// Unix seconds, UTC.
    pub expires_at: i64,
}

pub struct TokenView {
    pub access_token: Seq<char>,
    pub expires_at: int,
}

impl View for CachedToken {
    type V = TokenView;

    open spec fn view(&self) -> TokenView {
        TokenView { access_token: self.access_token@, expires_at: self.expires_at as int }
    }
}

impl TokenView {
    /// Whether the token is still valid for at least the leeway.
    pub open spec fn fresh_at(self, now: int) -> bool {
        self.expires_at - now >= TOKEN_LEEWAY
    }

    /// Whether the time left at `now` is a number of seconds that an `i64` holds.
    pub open spec fn time_left_fits(self, now: int) -> bool {
        i64::MIN <= self.expires_at - now <= i64::MAX
    }
}

impl CachedToken {
    /// Whether the token is still valid for at least `TOKEN_LEEWAY` at `now`.
    pub fn is_fresh_at(&self, now: i64) -> (fresh: bool)
        requires
            self@.time_left_fits(now as int),
        ensures
            fresh == self@.fresh_at(now as int),
    {
        self.expires_at - now >= TOKEN_LEEWAY
    }

    /// Whether the token is still valid for at least `TOKEN_LEEWAY` now.
    pub fn is_fresh(&self) -> (fresh: bool)
        requires
            i64::MIN + INSTANT_LIMIT <= self.expires_at <= i64::MAX - INSTANT_LIMIT,
        ensures
            exists|now: int| #[trigger] is_instant(now) && fresh == self@.fresh_at(now),
    {
        let now: i64 = unix_now();
        assert(is_instant(now as int));
        self.is_fresh_at(now)
    }
}

impl Clone for CachedToken {
    fn clone(&self) -> (copy: Self)
        ensures
            copy@ == self@,
    {
        CachedToken { access_token: self.access_token.clone(), expires_at: self.expires_at }
    }
}

} // verus!
