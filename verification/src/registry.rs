//! The registry: where the artifact of each issued token lies, and how its
//! upload ended.
//!
//! A record is written once, when the upload has ended, and is never altered
//! or removed. The registry is a plain value; whoever shares it between
//! connections holds it behind a lock and keeps the lock for one `insert` or
//! one lookup at a time.

use vstd::prelude::*;
use std::collections::HashMap;
use crate::token::{lemma_token_text_injective, token_text, Token};

verus! {

/// How an upload ended.
#[derive(Clone, Copy, Debug, PartialEq, Eq, Structural)]
pub enum Status {
    /// The whole content lies at the storage path.
    Ready,
    /// The content never arrived: what lies at the storage path, if
    /// anything, is not the artifact.
    Failed,
}

/// What the registry keeps of one upload.
#[derive(Debug, PartialEq, Eq)]
pub struct Record {
    pub path: String,
    pub status: Status,
}

/// A record by its contents.
pub struct RecordView {
    pub path: Seq<char>,
    pub status: Status,
}

impl View for Record {
    type V = RecordView;

    open spec fn view(&self) -> RecordView {
        RecordView { path: self.path@, status: self.status }
    }
}

impl Clone for Record {
    fn clone(&self) -> (copy: Record)
        ensures
            copy@ == self@,
    {
        Record { path: self.path.clone(), status: self.status }
    }
}

/// What a lookup by a token's text gives in a map of records: the record of
/// the token that is written so, if there is such a token and it has one.
pub open spec fn entry_by_text(entries: Map<u128, RecordView>, text: Seq<char>) -> Option<
    RecordView,
> {
    if exists|bits: u128| token_text(bits) == text && entries.contains_key(bits) {
        let bits = choose|bits: u128| token_text(bits) == text && entries.contains_key(bits);
        Some(entries[bits])
    } else {
        None
    }
}

/// A map from token to record, keyed by the token's bits.
pub struct Registry {
    map: HashMap<u128, Record>,
}

impl View for Registry {
    type V = Map<u128, RecordView>;

    closed spec fn view(&self) -> Map<u128, RecordView> {
        self.map@.map_values(|record: Record| record@)
    }
}

impl Registry {
    /// A registry without records.
    pub fn new() -> (r: Registry)
        ensures
            r@ == Map::<u128, RecordView>::empty(),
    {
        let r = Registry { map: HashMap::new() };
        assert(r@ =~= Map::<u128, RecordView>::empty());
        r
    }

    /// Whether `token` has a record.
    pub open spec fn holds(&self, token: Token) -> bool {
        self@.contains_key(token.bits)
    }

    /// The record of `token`, where it has one.
    pub open spec fn record_of(&self, token: Token) -> RecordView {
        self@[token.bits]
    }

    /// What a lookup by a token's text gives.
    pub open spec fn found_by_text(&self, text: Seq<char>) -> Option<RecordView> {
        entry_by_text(self@, text)
    }

    /// The number of records.
    pub fn len(&self) -> (n: usize)
        ensures
            n == self@.len(),
            self@.dom().finite(),
    {
        broadcast use vstd::std_specs::hash::group_hash_axioms;
        assert(self@.dom() =~= self.map@.dom());
        self.map.len()
    }

    /// Records that the upload of `token` ended with `status` and that its
    /// artifact lies at `path`, unless the token has a record already: then
    /// nothing changes. Returns whether the record was written.
    pub fn insert(&mut self, token: Token, path: String, status: Status) -> (written: bool)
        ensures
            written == !old(self).holds(token),
            written ==> final(self)@ == old(self)@.insert(
                token.bits,
                RecordView { path: path@, status },
            ),
            !written ==> final(self)@ == old(self)@,
    {
        broadcast use vstd::std_specs::hash::group_hash_axioms;
        if self.map.contains_key(&token.bits) {
            false
        } else {
            let ghost before = self.map@;
            let record = Record { path, status };
            self.map.insert(token.bits, record);
            assert(self@ =~= before.map_values(|record: Record| record@).insert(
                token.bits,
                record@,
            ));
            true
        }
    }

    /// The record of `token`, if it has one.
    pub fn lookup(&self, token: &Token) -> (r: Option<Record>)
        ensures
            r.is_some() == self.holds(*token),
            r matches Some(record) ==> record@ == self.record_of(*token),
    {
        broadcast use vstd::std_specs::hash::group_hash_axioms;
        match self.map.get(&token.bits) {
            Some(record) => Some(record.clone()),
            None => None,
        }
    }

    /// The record behind a token given as text, if the text is a token's and
    /// that token has a record.
    pub fn resolve(&self, text: &str) -> (r: Option<Record>)
        ensures
            r.is_some() == self.found_by_text(text@).is_some(),
            r matches Some(record) ==> Some(record@) == self.found_by_text(text@),
    {
        match Token::parse(text) {
            Some(token) => {
                proof {
                    assert forall|bits: u128| token_text(bits) == text@ implies bits
                        == token.bits by {
                        lemma_token_text_injective(Token { bits }, token);
                    }
                }
                self.lookup(&token)
            },
            None => None,
        }
    }
}

/// A lookup by a token's own text finds the record of that token.
pub proof fn lemma_entry_by_own_text(entries: Map<u128, RecordView>, token: Token)
    ensures
        entry_by_text(entries, token@) == if entries.contains_key(token.bits) {
            Some(entries[token.bits])
        } else {
            None
        },
{
    assert forall|bits: u128| token_text(bits) == token@ implies bits == token.bits by {
        lemma_token_text_injective(Token { bits }, token);
    }
}

} // verus!
