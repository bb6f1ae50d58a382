//! The table of LHDN OAuth tokens, one row per environment.
//!
//! It outlives a restart, so that a boot does not cost an OAuth round-trip.

use vstd::prelude::*;
use super::oauth::{CachedToken, TokenView};
use crate::table::{
    distinct_keys, has_key, lemma_table_push, lemma_table_row, lemma_table_update, table,
};

verus! {

/// One row of the table.
#[derive(Debug)]
pub struct TokenRow {
    pub env: String,
    pub token: CachedToken,
}

/// The rows of the table, or of the part of it that is at hand.
#[derive(Debug)]
pub struct OauthTokenStore {
    rows: Vec<TokenRow>,
}

spec fn env_key() -> spec_fn(TokenRow) -> Seq<char> {
    |row: TokenRow| row.env@
}

spec fn token_content() -> spec_fn(TokenRow) -> TokenView {
    |row: TokenRow| row.token@
}

impl View for OauthTokenStore {
    type V = Map<Seq<char>, TokenView>;

    closed spec fn view(&self) -> Map<Seq<char>, TokenView> {
        table(self.rows@, env_key(), token_content())
    }
}

impl OauthTokenStore {
    /// Whether no environment has two rows.
    pub closed spec fn wf(&self) -> bool {
        distinct_keys(self.rows@, env_key())
    }

    /// An empty table.
    pub fn new() -> (store: Self)
        ensures
            store.wf(),
            store@ == Map::<Seq<char>, TokenView>::empty(),
    {
        let store = OauthTokenStore { rows: Vec::new() };
        assert(store@ =~= Map::<Seq<char>, TokenView>::empty());
        store
    }

    fn position(&self, env: &str) -> (index: Option<usize>)
        ensures
            match index {
                Some(i) => i < self.rows@.len() && self.rows@[i as int].env@ == env@,
                None => !has_key(self.rows@, env_key(), env@),
            },
    {
        let mut i: usize = 0;
        while i < self.rows.len()
            invariant
                i <= self.rows@.len(),
                forall|k: int| 0 <= k < i ==> (#[trigger] self.rows@[k]).env@ != env@,
            decreases self.rows@.len() - i,
        {
            if *self.rows[i].env.as_str() == *env {
                return Some(i);
            }
            i = i + 1;
        }
        None
    }

    /// The token stored for the environment.
    pub fn get(&self, env: &str) -> (token: Option<CachedToken>)
        requires
            self.wf(),
        ensures
            match token {
                Some(t) => self@.contains_key(env@) && t@ == self@[env@],
                None => !self@.contains_key(env@),
            },
    {
        match self.position(env) {
            Some(i) => {
                proof {
                    lemma_table_row(self.rows@, env_key(), token_content(), i as int);
                }
                Some(self.rows[i].token.clone())
            },
            None => None,
        }
    }

    /// Stores the token for the environment, in place of an earlier one.
    pub fn upsert(&mut self, env: &str, access_token: &str, expires_at: i64)
        requires
            old(self).wf(),
        ensures
            final(self).wf(),
            final(self)@ == old(self)@.insert(
                env@,
                TokenView { access_token: access_token@, expires_at: expires_at as int },
            ),
    {
        let row = TokenRow {
            env: env.to_owned(),
            token: CachedToken { access_token: access_token.to_owned(), expires_at },
        };
        let ghost before = self.rows@;
        match self.position(env) {
            Some(i) => {
                proof {
                    lemma_table_update(before, env_key(), token_content(), i as int, row);
                }
                self.rows.set(i, row);
            },
            None => {
                proof {
                    lemma_table_push(before, env_key(), token_content(), row);
                }
                self.rows.push(row);
            },
        }
    }
}

} // verus!
