//! Identities, and what the host tells the ledger about the call in progress.

use vstd::prelude::*;

verus! {

/// An account or contract identity, held as its textual key.
#[derive(Debug, PartialEq, Eq)]
pub struct Address {
    pub key: String,
}

impl View for Address {
    type V = Seq<char>;

    open spec fn view(&self) -> Seq<char> {
        self.key@
    }
}

impl Clone for Address {
    fn clone(&self) -> (res: Self)
        ensures
            res == *self,
    {
        Address { key: self.key.clone() }
    }
}

impl Address {
    /// Whether both addresses name the same identity.
    pub fn same_as(&self, other: &Address) -> (same: bool)
        ensures
            same == (self@ == other@),
    {
        self.key == other.key
    }
}

/// The facts about one call that only the host knows.
#[derive(Debug, PartialEq, Eq)]
pub struct CallContext {
    /// The identity that the host found to have authorized the call.
    pub invoker: Address,
    /// The address under which the ledger itself runs.
    pub contract: Address,
    /// The ledger time, in seconds.
    pub timestamp: u64,
}

/// What a [`CallContext`] holds, as mathematical values.
pub struct CallContextView {
    pub invoker: Seq<char>,
    pub contract: Seq<char>,
    pub timestamp: int,
}

impl View for CallContext {
    type V = CallContextView;

    open spec fn view(&self) -> CallContextView {
        CallContextView {
            invoker: self.invoker@,
            contract: self.contract@,
            timestamp: self.timestamp as int,
        }
    }
}

impl Clone for CallContext {
    fn clone(&self) -> (res: Self)
        ensures
            res == *self,
    {
        CallContext {
            invoker: self.invoker.clone(),
            contract: self.contract.clone(),
            timestamp: self.timestamp,
        }
    }
}

} // verus!
