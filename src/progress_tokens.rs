use vstd::prelude::*;

use dashmap::DashMap;

use crate::error::{TapferError, TapferResult};
use crate::tapfer_id::TapferId;
use crate::upload::{parse_u32, u32_parse};

verus! {

/// The ids that a map of progress tokens holds, by token.
pub uninterp spec fn token_contents(m: DashMap<u32, TapferId>) -> Map<u32, TapferId>;

/// Relies on `dashmap::DashMap::new`: an empty map.
#[verifier::external_body]
fn tokens_new() -> (r: DashMap<u32, TapferId>)
    ensures
        token_contents(r).dom() == Set::<u32>::empty(),
{
    DashMap::new()
}

/// Relies on `dashmap::DashMap::insert`: the token now maps to the id.
#[verifier::external_body]
fn tokens_insert(m: &mut DashMap<u32, TapferId>, k: u32, v: TapferId)
    ensures
        token_contents(*final(m)) == token_contents(*old(m)).insert(k, v),
{
    m.insert(k, v);
}

/// Relies on `dashmap::DashMap::remove`: the token no longer maps to anything.
#[verifier::external_body]
fn tokens_remove(m: &mut DashMap<u32, TapferId>, k: u32)
    ensures
        token_contents(*final(m)) == token_contents(*old(m)).remove(k),
{
    m.remove(&k);
}

/// Relies on `dashmap::DashMap::get`: the id the token maps to, copied out.
#[verifier::external_body]
fn tokens_get(m: &DashMap<u32, TapferId>, k: u32) -> (r: Option<TapferId>)
    ensures
        r == (if token_contents(*m).contains_key(k) {
            Some(token_contents(*m)[k])
        } else {
            None
        }),
{
    m.get(&k).map(|e| *e.value())
}

/// Reads a progress token from its text.
pub fn parse_progress_token(s: &str) -> (r: TapferResult<u32>)
    ensures
        match u32_parse(s@) {
            Some(t) => r == Ok::<u32, TapferError>(t),
            None => r matches Err(TapferError::InvalidNumber),
        },
{
    match parse_u32(s) {
        Some(t) => Ok(t),
        None => Err(TapferError::InvalidNumber),
    }
}

/// The tokens with which a frontend follows its uploads before it knows their
/// ids.
#[derive(Debug)]
pub struct ProgressTokens {
    tokens: DashMap<u32, TapferId>,
}

impl ProgressTokens {
    pub closed spec fn view(self) -> Map<u32, TapferId> {
        token_contents(self.tokens)
    }

    pub fn new() -> (r: Self)
        ensures
            r.view().dom() == Set::<u32>::empty(),
    {
        ProgressTokens { tokens: tokens_new() }
    }

    /// Associates a token with the upload it follows.
    pub fn insert(&mut self, token: u32, id: TapferId)
        ensures
            final(self).view() == old(self).view().insert(token, id),
    {
        tokens_insert(&mut self.tokens, token, id)
    }

    /// Forgets a token once its upload has ended.
    pub fn remove(&mut self, token: u32)
        ensures
            final(self).view() == old(self).view().remove(token),
    {
        tokens_remove(&mut self.tokens, token)
    }

    /// The upload a token follows; an unknown token is an error.
    pub fn progress_token_to_id(&self, token: u32) -> (r: TapferResult<TapferId>)
        ensures
            self.view().contains_key(token) ==> r == Ok::<TapferId, TapferError>(self.view()[token]),
            !self.view().contains_key(token) ==> (r matches Err(TapferError::TokenDoesNotExist(t)) && t == token),
    {
        match tokens_get(&self.tokens, token) {
            Some(id) => Ok(id),
            None => Err(TapferError::TokenDoesNotExist(token)),
        }
    }
}

} // verus!
