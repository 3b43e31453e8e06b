//! The option record and its mathematical model.

use vstd::prelude::*;
use crate::funds::{Coin, CoinModel, distinct_denoms};

verus! {

/// A validated identity: an address the host environment has accepted.
///
/// The library never validates raw strings itself; callers hand in an `Addr`
/// only for identities the environment's validation primitive has approved.
#[derive(Debug, PartialEq, Eq)]
pub struct Addr(pub String);

impl View for Addr {
    type V = Seq<char>;

    open spec fn view(&self) -> Seq<char> {
        self.0@
    }
}

impl DeepView for Addr {
    type V = Seq<char>;

    open spec fn deep_view(&self) -> Seq<char> {
        self.0@
    }
}

impl Clone for Addr {
    fn clone(&self) -> (r: Addr)
        ensures
            r == *self,
    {
        Addr(self.0.clone())
    }
}

impl Addr {
    /// The address in string form.
    pub fn as_str(&self) -> (r: &str)
        ensures
            r@ == self@,
    {
        self.0.as_str()
    }
}

/// Whether two addresses name the same identity.
pub fn addr_eq(a: &Addr, b: &Addr) -> (r: bool)
    ensures
        r == (a@ == b@),
{
    a.0 == b.0
}

/// The one persisted option record.
#[derive(Debug, PartialEq, Eq)]
pub struct State {
    /// The party that deposited the collateral. Immutable after creation.
    pub creator: Addr,
    /// The party currently entitled to exercise. Reassigned only by transfer.
    pub owner: Addr,
    /// Funds deposited at creation, paid out on exercise or reclaim.
    pub collateral: Vec<Coin>,
    /// Funds the owner must pay to exercise.
    pub counter_offer: Vec<Coin>,
    /// Logical time from which the option can no longer be exercised.
    pub expires: u64,
}

/// Mathematical model of a `State`.
#[verifier::ext_equal]
pub struct StateModel {
    pub creator: Seq<char>,
    pub owner: Seq<char>,
    pub collateral: Seq<CoinModel>,
    pub counter_offer: Seq<CoinModel>,
    pub expires: u64,
}

impl DeepView for State {
    type V = StateModel;

    open spec fn deep_view(&self) -> StateModel {
        StateModel {
            creator: self.creator@,
            owner: self.owner@,
            collateral: self.collateral.deep_view(),
            counter_offer: self.counter_offer.deep_view(),
            expires: self.expires,
        }
    }
}

/// The record with its owner replaced: the effect of a transfer.
pub open spec fn with_owner(s: StateModel, owner: Seq<char>) -> StateModel {
    StateModel { owner, ..s }
}

/// The record's own invariant: each fund list names a denomination at most
/// once.
pub open spec fn wf_state(s: StateModel) -> bool {
    distinct_denoms(s.collateral) && distinct_denoms(s.counter_offer)
}

} // verus!
