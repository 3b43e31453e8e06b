//! Command payloads: the closed set of requests a caller can make.

use vstd::prelude::*;
use crate::funds::Coin;

verus! {

/// The creation request: the counter-offer the owner must later pay, and the
/// logical time at which the option expires.
#[derive(Debug, PartialEq, Eq)]
pub struct InstantiateMsg {
    pub counter_offer: Vec<Coin>,
    pub expires: u64,
}

/// The three mutating commands.
#[derive(Debug, PartialEq, Eq)]
pub enum ExecuteMsg {
    /// Hand the right to exercise to another identity.
    Transfer { recipient: String },
    /// Pay the counter-offer and claim the collateral.
    Execute {},
    /// After expiry, return the collateral to the creator.
    Burn {},
}

/// The read-only queries.
#[derive(Debug, PartialEq, Eq)]
pub enum QueryMsg {
    /// The full current record.
    Config {},
}

} // verus!
