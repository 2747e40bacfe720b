//! The access/refresh token pair and the rules on its lifetimes.

use vstd::prelude::*;

verus! {

/// The token pair that authenticates the bot to the directory backend, with
/// the Unix times (in seconds) at which each token stops being accepted.
#[derive(Debug, PartialEq, Eq)]
pub struct Secrets {
    pub access_token: String,
    pub refresh_token: String,
    pub access_token_expires_at: i64,
    pub refresh_token_expires_at: i64,
}

/// What a [`Secrets`] value holds, as mathematical values.
pub struct SecretsView {
    pub access_token: Seq<char>,
    pub refresh_token: Seq<char>,
    pub access_token_expires_at: int,
    pub refresh_token_expires_at: int,
}

impl View for Secrets {
    type V = SecretsView;

    open spec fn view(&self) -> SecretsView {
        SecretsView {
            access_token: self.access_token@,
            refresh_token: self.refresh_token@,
            access_token_expires_at: self.access_token_expires_at as int,
            refresh_token_expires_at: self.refresh_token_expires_at as int,
        }
    }
}

impl SecretsView {
    /// The pair that was never fetched: no tokens, both lifetimes zero.
    pub open spec fn empty() -> SecretsView {
        SecretsView {
            access_token: Seq::empty(),
            refresh_token: Seq::empty(),
            access_token_expires_at: 0,
            refresh_token_expires_at: 0,
        }
    }

    /// The two lifetimes are both zero (never fetched) or both positive.
    pub open spec fn well_formed(self) -> bool {
        ||| self.access_token_expires_at == 0 && self.refresh_token_expires_at == 0
        ||| self.access_token_expires_at > 0 && self.refresh_token_expires_at > 0
    }

    /// The refresh token can still be exchanged at `now`: its lifetime was
    /// set and has not run out.
    pub open spec fn refresh_usable(self, now: int) -> bool {
        self.refresh_token_expires_at != 0 && self.refresh_token_expires_at > now
    }

    /// The access token is still accepted at `now`.
    pub open spec fn access_usable(self, now: int) -> bool {
        self.access_token_expires_at != 0 && self.access_token_expires_at > now
    }
}

/// The pair that was never fetched is well formed, and it can neither be
/// used nor renewed at any time.
pub proof fn lemma_empty_pair_is_unusable(now: int)
    ensures
        SecretsView::empty().well_formed(),
        !SecretsView::empty().refresh_usable(now),
        !SecretsView::empty().access_usable(now),
{
}

/// A pair that has run out stays run out: what cannot be renewed at one
/// time cannot be renewed at any later time.
pub proof fn lemma_expiry_is_final(secrets: SecretsView, now: int, later: int)
    requires
        now <= later,
        !secrets.refresh_usable(now),
    ensures
        !secrets.refresh_usable(later),
{
}

impl Clone for Secrets {
    fn clone(&self) -> (copy: Self)
        ensures
            copy == *self,
    {
        Secrets {
            access_token: self.access_token.clone(),
            refresh_token: self.refresh_token.clone(),
            access_token_expires_at: self.access_token_expires_at,
            refresh_token_expires_at: self.refresh_token_expires_at,
        }
    }
}

impl Secrets {
    /// The pair held before anything was fetched.
    pub fn empty() -> (secrets: Secrets)
        ensures
            secrets@ == SecretsView::empty(),
    {
        Secrets {
            access_token: String::new(),
            refresh_token: String::new(),
            access_token_expires_at: 0,
            refresh_token_expires_at: 0,
        }
    }

    /// Whether the two lifetimes are both zero or both positive.
    pub fn is_well_formed(&self) -> (ok: bool)
        ensures
            ok == self@.well_formed(),
    {
        (self.access_token_expires_at == 0 && self.refresh_token_expires_at == 0) || (
        self.access_token_expires_at > 0 && self.refresh_token_expires_at > 0)
    }

    /// Whether the refresh token may still be exchanged at `now`.
    pub fn refresh_usable(&self, now: i64) -> (usable: bool)
        ensures
            usable == self@.refresh_usable(now as int),
    {
        self.refresh_token_expires_at != 0 && self.refresh_token_expires_at > now
    }

    /// Whether the access token is still accepted at `now`.
    pub fn access_usable(&self, now: i64) -> (usable: bool)
        ensures
            usable == self@.access_usable(now as int),
    {
        self.access_token_expires_at != 0 && self.access_token_expires_at > now
    }

    /// Whether two pairs agree in all four fields.
    pub fn same_as(&self, other: &Secrets) -> (same: bool)
        ensures
            same == (self@ == other@),
    {
        self.access_token == other.access_token && self.refresh_token == other.refresh_token
            && self.access_token_expires_at == other.access_token_expires_at
            && self.refresh_token_expires_at == other.refresh_token_expires_at
    }
}

} // verus!
