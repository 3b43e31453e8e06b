//! Typed failures: each names the precondition the invocation violated.

use vstd::prelude::*;
use crate::funds::{Coin, CoinModel};

verus! {

/// Why a command was rejected. Every failure leaves the record untouched.
#[derive(Debug, PartialEq, Eq)]
pub enum ContractError {
    /// The caller is not the current owner where ownership is required.
    Unauthorized {},
    /// Creation asked for an expiry not in the future, or exercise came at or
    /// after the expiry.
    OptionExpired { expired: u64 },
    /// Reclaim came before the expiry.
    OptionNotExpired { expires: u64 },
    /// The funds attached to an exercise do not equal the required
    /// counter-offer as a multiset.
    CounterOfferMismatch { offer: Vec<Coin>, counter_offer: Vec<Coin> },
    /// Funds were attached to a reclaim, which takes none.
    FundsSentWithBurn {},
    /// The transfer recipient failed the environment's identity validation.
    InvalidRecipient {},
    /// No option record exists, for instance after termination.
    NoRecord {},
}

/// Mathematical model of a `ContractError`.
#[verifier::ext_equal]
pub enum ErrModel {
    Unauthorized,
    OptionExpired { expired: u64 },
    OptionNotExpired { expires: u64 },
    CounterOfferMismatch { offer: Seq<CoinModel>, counter_offer: Seq<CoinModel> },
    FundsSentWithBurn,
    InvalidRecipient,
    NoRecord,
}

impl DeepView for ContractError {
    type V = ErrModel;

    open spec fn deep_view(&self) -> ErrModel {
        match self {
            ContractError::Unauthorized {} => ErrModel::Unauthorized,
            ContractError::OptionExpired { expired } => ErrModel::OptionExpired {
                expired: *expired,
            },
            ContractError::OptionNotExpired { expires } => ErrModel::OptionNotExpired {
                expires: *expires,
            },
            ContractError::CounterOfferMismatch { offer, counter_offer } => {
                ErrModel::CounterOfferMismatch {
                    offer: offer.deep_view(),
                    counter_offer: counter_offer.deep_view(),
                }
            },
            ContractError::FundsSentWithBurn {} => ErrModel::FundsSentWithBurn,
            ContractError::InvalidRecipient {} => ErrModel::InvalidRecipient,
            ContractError::NoRecord {} => ErrModel::NoRecord,
        }
    }
}

impl ContractError {
    /// A short description of the failure, for hosts that report errors as
    /// text.
    pub fn describe(&self) -> &'static str {
        match self {
            ContractError::Unauthorized {} => "unauthorized",
            ContractError::OptionExpired { .. } => "option expired",
            ContractError::OptionNotExpired { .. } => "option not expired",
            ContractError::CounterOfferMismatch { .. } => "counter-offer mismatch",
            ContractError::FundsSentWithBurn {} => "funds sent with burn",
            ContractError::InvalidRecipient {} => "invalid recipient",
            ContractError::NoRecord {} => "no option record",
        }
    }
}

} // verus!
