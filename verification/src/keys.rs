//! The keys records are stored under.

use crate::pubkey::Pubkey;
use crate::table::Key;
use vstd::prelude::*;

verus! {

impl Key for Pubkey {
    fn same(&self, other: &Self) -> (r: bool) {
        Pubkey::same(self, other)
    }
}

/// A name within a scope: a pool id under its admin, or a claim id under its
/// pool.
pub struct ScopedName {
    pub scope: Pubkey,
    pub name: String,
}

impl View for ScopedName {
    type V = (Seq<u8>, Seq<char>);

    open spec fn view(&self) -> (Seq<u8>, Seq<char>) {
        (self.scope@, self.name@)
    }
}

impl Key for ScopedName {
    fn same(&self, other: &Self) -> (r: bool) {
        self.scope.same(&other.scope) && self.name == other.name
    }
}

/// An ordered pair of keys: a pool and a worker, or a claim and a validator.
#[derive(Clone, Copy)]
pub struct KeyPair {
    pub first: Pubkey,
    pub second: Pubkey,
}

impl View for KeyPair {
    type V = (Seq<u8>, Seq<u8>);

    open spec fn view(&self) -> (Seq<u8>, Seq<u8>) {
        (self.first@, self.second@)
    }
}

impl Key for KeyPair {
    fn same(&self, other: &Self) -> (r: bool) {
        self.first.same(&other.first) && self.second.same(&other.second)
    }
}

} // verus!
