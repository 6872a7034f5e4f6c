//! The conversation state store: a map from user identity to the open
//! conversation, at most one per user.  The caller serializes access
//! per user (the transport loop holds the store behind a lock); the
//! operations here give the exact map semantics that serialization
//! relies on.
use vstd::prelude::*;
use std::collections::HashMap;
use crate::convo::ConvState;

verus! {

broadcast use vstd::std_specs::hash::group_hash_axioms;

/// Maps each user identity to their open conversation, if any.
pub struct StateStore {
    map: HashMap<i64, ConvState>,
}

impl View for StateStore {
    type V = Map<i64, ConvState>;

    closed spec fn view(&self) -> Map<i64, ConvState> {
        self.map@
    }
}

impl StateStore {
    /// An empty store: nobody has an open conversation.
    pub fn new() -> (s: StateStore)
        ensures
            s@ == Map::<i64, ConvState>::empty(),
    {
        StateStore { map: HashMap::new() }
    }

    /// Whether this user has an open conversation.
    pub fn has_conversation(&self, user: i64) -> (r: bool)
        ensures
            r == self@.contains_key(user),
    {
        self.map.contains_key(&user)
    }

    /// The user's open conversation, if any.
    pub fn get(&self, user: i64) -> (r: Option<&ConvState>)
        ensures
            match r {
                Some(st) => self@.contains_key(user) && *st == self@[user],
                None => !self@.contains_key(user),
            },
    {
        self.map.get(&user)
    }

    /// Opens or replaces the user's conversation.
    pub fn set(&mut self, user: i64, state: ConvState)
        ensures
            final(self)@ == old(self)@.insert(user, state),
    {
        self.map.insert(user, state);
    }

    /// Ends the user's conversation, if one was open.
    pub fn remove(&mut self, user: i64)
        ensures
            final(self)@ == old(self)@.remove(user),
    {
        self.map.remove(&user);
    }
}

} // verus!
