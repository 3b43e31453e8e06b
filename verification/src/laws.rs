//! The state machine's laws, proved once and for all over the transition
//! functions of `contract`.
//!
//! Each proof function here states a guarantee that spans inputs or calls:
//! what creation records, who may transfer, how a transfer reassigns the
//! right to exercise, and what exercise and reclaim pay out. The executable
//! handlers follow the same transition functions exactly (see `follows`), so
//! these laws carry over to every run of the library.

use vstd::prelude::*;
use crate::contract::{spec_burn, spec_exercise, spec_instantiate, spec_transfer, Outcome};
use crate::error::ErrModel;
use crate::funds::{distinct_denoms, same_funds, CoinModel};
use crate::response::BankMsgModel;
use crate::state::{wf_state, with_owner, StateModel};

verus! {

/// A creation whose expiry lies ahead records the caller as both creator
/// and owner, the attached funds as the collateral, and the counter-offer
/// and expiry as given, and pays nothing out.
pub proof fn lemma_creation_records_caller(
    height: u64,
    sender: Seq<char>,
    funds: Seq<CoinModel>,
    counter_offer: Seq<CoinModel>,
    expires: u64,
)
    requires
        expires > height,
    ensures
        spec_instantiate(height, sender, funds, counter_offer, expires) matches Ok(o) && {
            &&& o.cell == Some(
                StateModel { creator: sender, owner: sender, collateral: funds, counter_offer, expires },
            )
            &&& o.response.messages.len() == 0
        },
{
}

/// A creation whose expiry is not in the future always fails as already
/// expired, naming the requested expiry.
pub proof fn lemma_creation_expired_fails(
    height: u64,
    sender: Seq<char>,
    funds: Seq<CoinModel>,
    counter_offer: Seq<CoinModel>,
    expires: u64,
)
    requires
        expires <= height,
    ensures
        spec_instantiate(height, sender, funds, counter_offer, expires) == Err::<Outcome, ErrModel>(
            ErrModel::OptionExpired { expired: expires },
        ),
{
}

/// Creation establishes the record invariant whenever its fund inputs
/// respect it.
pub proof fn lemma_creation_establishes_wf(
    height: u64,
    sender: Seq<char>,
    funds: Seq<CoinModel>,
    counter_offer: Seq<CoinModel>,
    expires: u64,
)
    requires
        distinct_denoms(funds),
        distinct_denoms(counter_offer),
    ensures
        spec_instantiate(height, sender, funds, counter_offer, expires) matches Ok(o) ==> (o.cell
            matches Some(ns) && wf_state(ns)),
{
}

/// Only the current owner may transfer: any other caller is turned away as
/// unauthorized, whoever the recipient is.
pub proof fn lemma_transfer_requires_owner(
    s: StateModel,
    sender: Seq<char>,
    recipient: Seq<char>,
    validated: Option<Seq<char>>,
)
    requires
        sender != s.owner,
    ensures
        spec_transfer(Some(s), sender, recipient, validated) == Err::<Outcome, ErrModel>(
            ErrModel::Unauthorized,
        ),
{
}

/// A transfer by the owner to a validated recipient succeeds, reassigns the
/// owner and changes nothing else, and moves no funds.
pub proof fn lemma_transfer_changes_owner_only(
    s: StateModel,
    recipient: Seq<char>,
    new_owner: Seq<char>,
)
    ensures
        spec_transfer(Some(s), s.owner, recipient, Some(new_owner)) matches Ok(o) && {
            &&& o.cell == Some(with_owner(s, new_owner))
            &&& o.cell matches Some(ns) && ns.creator == s.creator && ns.collateral
                == s.collateral && ns.counter_offer == s.counter_offer && ns.expires == s.expires
            &&& o.response.messages.len() == 0
        },
{
}

/// A transfer preserves the record invariant: the fund lists never change
/// after creation.
pub proof fn lemma_transfer_preserves_wf(
    s: StateModel,
    sender: Seq<char>,
    recipient: Seq<char>,
    validated: Option<Seq<char>>,
)
    requires
        wf_state(s),
    ensures
        spec_transfer(Some(s), sender, recipient, validated) matches Ok(o) ==> (o.cell
            matches Some(ns) && wf_state(ns)),
{
}

/// After a successful transfer, the new owner — and only the new owner —
/// can exercise: any other caller, the previous owner included, is turned
/// away as unauthorized, while the new owner succeeds exactly when the
/// expiry lies ahead and the funds equal the counter-offer.
pub proof fn lemma_transfer_shifts_exercise_right(
    s: StateModel,
    recipient: Seq<char>,
    new_owner: Seq<char>,
    height: u64,
    caller: Seq<char>,
    funds: Seq<CoinModel>,
)
    ensures
        spec_transfer(Some(s), s.owner, recipient, Some(new_owner)) matches Ok(o) && {
            &&& (spec_exercise(o.cell, height, new_owner, funds) is Ok <==> (height < s.expires
                && same_funds(funds, s.counter_offer)))
            &&& caller != new_owner ==> spec_exercise(o.cell, height, caller, funds) == Err::<
                Outcome,
                ErrModel,
            >(ErrModel::Unauthorized)
        },
{
}

/// An exercise by the owner, before the expiry, with funds equal to the
/// counter-offer, emits exactly two transfers — the counter-offer to the
/// creator, then the collateral to the owner — and deletes the record.
pub proof fn lemma_exercise_pays_and_terminates(s: StateModel, height: u64, funds: Seq<CoinModel>)
    requires
        height < s.expires,
        same_funds(funds, s.counter_offer),
    ensures
        spec_exercise(Some(s), height, s.owner, funds) matches Ok(o) && {
            &&& o.cell is None
            &&& o.response.messages == seq![
                BankMsgModel { to_address: s.creator, amount: s.counter_offer },
                BankMsgModel { to_address: s.owner, amount: s.collateral },
            ]
        },
{
}

/// An exercise whose funds do not equal the counter-offer as a multiset —
/// over, under, or the wrong denominations — fails with a mismatch carrying
/// both the offered and the required funds.
pub proof fn lemma_exercise_mismatch_rejected(s: StateModel, height: u64, funds: Seq<CoinModel>)
    requires
        height < s.expires,
        !same_funds(funds, s.counter_offer),
    ensures
        spec_exercise(Some(s), height, s.owner, funds) == Err::<Outcome, ErrModel>(
            ErrModel::CounterOfferMismatch { offer: funds, counter_offer: s.counter_offer },
        ),
{
}

/// An exercise at or after the expiry fails as expired, whatever funds are
/// attached.
pub proof fn lemma_exercise_after_expiry_rejected(
    s: StateModel,
    height: u64,
    funds: Seq<CoinModel>,
)
    requires
        height >= s.expires,
    ensures
        spec_exercise(Some(s), height, s.owner, funds) == Err::<Outcome, ErrModel>(
            ErrModel::OptionExpired { expired: s.expires },
        ),
{
}

/// A reclaim before the expiry fails, naming the expiry.
pub proof fn lemma_reclaim_before_expiry_rejected(
    s: StateModel,
    height: u64,
    funds: Seq<CoinModel>,
)
    requires
        height < s.expires,
    ensures
        spec_burn(Some(s), height, funds) == Err::<Outcome, ErrModel>(
            ErrModel::OptionNotExpired { expires: s.expires },
        ),
{
}

/// A reclaim with funds attached fails even after expiry: reclaiming takes
/// no payment.
pub proof fn lemma_reclaim_with_funds_rejected(s: StateModel, height: u64, funds: Seq<CoinModel>)
    requires
        height >= s.expires,
        funds.len() != 0,
    ensures
        spec_burn(Some(s), height, funds) == Err::<Outcome, ErrModel>(ErrModel::FundsSentWithBurn),
{
}

/// A reclaim at or after the expiry with no funds attached — by any caller —
/// emits exactly one transfer, the collateral back to the creator, and
/// deletes the record.
pub proof fn lemma_reclaim_returns_collateral(s: StateModel, height: u64)
    requires
        height >= s.expires,
    ensures
        spec_burn(Some(s), height, Seq::empty()) matches Ok(o) && {
            &&& o.cell is None
            &&& o.response.messages == seq![
                BankMsgModel { to_address: s.creator, amount: s.collateral },
            ]
        },
{
}

} // verus!
