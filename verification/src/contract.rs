//! The option state machine: creation, transfer, exercise, expiry-reclaim
//! and the read-only query.
//!
//! Each mutating command is a pure transition on an optional-value cell
//! holding the one option record. The spec functions below state every
//! transition in full — which inputs succeed, which error each rejected
//! input earns, and what the host is told to pay out — and every executable
//! handler is proved to follow them exactly. A failed invocation never
//! changes the record.

use vstd::prelude::*;
use crate::error::{ContractError, ErrModel};
use crate::funds::{clone_coins, funds_match, same_funds, distinct_denoms, Coin, CoinModel};
use crate::msg::{ExecuteMsg, InstantiateMsg, QueryMsg};
use crate::response::{
    empty_response,
    Attribute,
    AttributeModel,
    BankMsg,
    BankMsgModel,
    Response,
    ResponseModel,
};
use crate::state::{addr_eq, with_owner, Addr, State, StateModel};

verus! {

/// What one invocation leaves behind: the record afterwards (or its absence)
/// and the response handed to the host.
#[verifier::ext_equal]
pub struct Outcome {
    pub cell: Option<StateModel>,
    pub response: ResponseModel,
}

/// The attribute every successful mutating command carries.
pub open spec fn action_attr(value: Seq<char>) -> AttributeModel {
    AttributeModel { key: "action"@, value }
}

/// How an executable handler's result must relate to the state machine's
/// outcome: on success the new record and the response are the outcome's;
/// on failure the error is the outcome's and the record is untouched.
pub open spec fn follows(
    out: Result<Outcome, ErrModel>,
    old_cell: Option<StateModel>,
    new_cell: Option<StateModel>,
    r: Result<Response, ContractError>,
) -> bool {
    match out {
        Ok(o) => {
            &&& r matches Ok(resp) && resp.deep_view() == o.response
            &&& new_cell == o.cell
        },
        Err(e) => {
            &&& r matches Err(err) && err.deep_view() == e
            &&& new_cell == old_cell
        },
    }
}

/// The creation transition: with a future expiry, the caller becomes both
/// creator and owner, the attached funds become the collateral, and nothing
/// is paid out; with an expiry at or before the present, creation fails as
/// already expired.
pub open spec fn spec_instantiate(
    height: u64,
    sender: Seq<char>,
    funds: Seq<CoinModel>,
    counter_offer: Seq<CoinModel>,
    expires: u64,
) -> Result<Outcome, ErrModel> {
    if expires <= height {
        Err(ErrModel::OptionExpired { expired: expires })
    } else {
        Ok(
            Outcome {
                cell: Some(
                    StateModel {
                        creator: sender,
                        owner: sender,
                        collateral: funds,
                        counter_offer,
                        expires,
                    },
                ),
                response: empty_response(),
            },
        )
    }
}

/// The transfer transition: only the current owner may transfer; the
/// recipient must have passed the environment's identity validation
/// (`validated` is that validation's verdict); on success the record keeps
/// everything but its owner, no funds move, and the action is observable.
/// Expiry is no bar to a transfer.
pub open spec fn spec_transfer(
    cell: Option<StateModel>,
    sender: Seq<char>,
    recipient: Seq<char>,
    validated: Option<Seq<char>>,
) -> Result<Outcome, ErrModel> {
    match cell {
        None => Err(ErrModel::NoRecord),
        Some(s) => if sender != s.owner {
            Err(ErrModel::Unauthorized)
        } else {
            match validated {
                None => Err(ErrModel::InvalidRecipient),
                Some(a) => Ok(
                    Outcome {
                        cell: Some(with_owner(s, a)),
                        response: ResponseModel {
                            messages: Seq::empty(),
                            attributes: seq![
                                action_attr("transfer"@),
                                AttributeModel { key: "owner"@, value: recipient },
                            ],
                        },
                    },
                ),
            }
        },
    }
}

/// The exercise transition, its preconditions checked in order: ownership,
/// then expiry, then the counter-offer. On success the counter-offer is
/// routed to the creator, then the collateral to the owner, and the record
/// is deleted.
pub open spec fn spec_exercise(
    cell: Option<StateModel>,
    height: u64,
    sender: Seq<char>,
    funds: Seq<CoinModel>,
) -> Result<Outcome, ErrModel> {
    match cell {
        None => Err(ErrModel::NoRecord),
        Some(s) => if sender != s.owner {
            Err(ErrModel::Unauthorized)
        } else if height >= s.expires {
            Err(ErrModel::OptionExpired { expired: s.expires })
        } else if !same_funds(funds, s.counter_offer) {
            Err(ErrModel::CounterOfferMismatch { offer: funds, counter_offer: s.counter_offer })
        } else {
            Ok(
                Outcome {
                    cell: None,
                    response: ResponseModel {
                        messages: seq![
                            BankMsgModel { to_address: s.creator, amount: s.counter_offer },
                            BankMsgModel { to_address: s.owner, amount: s.collateral },
                        ],
                        attributes: seq![action_attr("execute"@)],
                    },
                },
            )
        },
    }
}

/// The expiry-reclaim transition: anyone may trigger it once the expiry has
/// been reached, provided no funds are attached; the collateral goes back to
/// the creator and the record is deleted.
pub open spec fn spec_burn(
    cell: Option<StateModel>,
    height: u64,
    funds: Seq<CoinModel>,
) -> Result<Outcome, ErrModel> {
    match cell {
        None => Err(ErrModel::NoRecord),
        Some(s) => if height < s.expires {
            Err(ErrModel::OptionNotExpired { expires: s.expires })
        } else if funds.len() != 0 {
            Err(ErrModel::FundsSentWithBurn)
        } else {
            Ok(
                Outcome {
                    cell: None,
                    response: ResponseModel {
                        messages: seq![
                            BankMsgModel { to_address: s.creator, amount: s.collateral },
                        ],
                        attributes: seq![action_attr("burn"@)],
                    },
                },
            )
        },
    }
}

/// The dispatch over the three mutating commands.
pub open spec fn spec_execute(
    cell: Option<StateModel>,
    height: u64,
    sender: Seq<char>,
    funds: Seq<CoinModel>,
    msg: ExecuteMsg,
    validated: Option<Seq<char>>,
) -> Result<Outcome, ErrModel> {
    match msg {
        ExecuteMsg::Transfer { recipient } => spec_transfer(cell, sender, recipient@, validated),
        ExecuteMsg::Execute {} => spec_exercise(cell, height, sender, funds),
        ExecuteMsg::Burn {} => spec_burn(cell, height, funds),
    }
}

/// Create the option: the caller becomes creator and owner, the attached
/// funds the collateral. Fails with `OptionExpired` when the requested
/// expiry is not strictly in the future, and then leaves no record behind.
///
/// A fresh creation overwrites any live record: the host's deployment model
/// is responsible for scoping creation to at most one live instance.
pub fn instantiate(
    cell: &mut Option<State>,
    height: u64,
    sender: Addr,
    funds: Vec<Coin>,
    msg: InstantiateMsg,
) -> (r: Result<Response, ContractError>)
    requires
        distinct_denoms(funds.deep_view()),
        distinct_denoms(msg.counter_offer.deep_view()),
    ensures
        follows(
            spec_instantiate(
                height,
                sender@,
                funds.deep_view(),
                msg.counter_offer.deep_view(),
                msg.expires,
            ),
            old(cell).deep_view(),
            final(cell).deep_view(),
            r,
        ),
{
    let ghost fv = funds.deep_view();
    let ghost cv = msg.counter_offer.deep_view();
    if msg.expires <= height {
        return Err(ContractError::OptionExpired { expired: msg.expires });
    }
    let state = State {
        creator: sender.clone(),
        owner: sender,
        collateral: funds,
        counter_offer: msg.counter_offer,
        expires: msg.expires,
    };
    proof {
        assert(state.deep_view() =~~= (StateModel {
            creator: state.owner@,
            owner: state.owner@,
            collateral: fv,
            counter_offer: cv,
            expires: msg.expires,
        }));
    }
    *cell = Some(state);
    let resp = Response::default();
    Ok(resp)
}

/// Hand the right to exercise to `recipient`. Only the current owner may do
/// so; `validated` is the environment's verdict on the recipient's identity
/// — `None` when validation rejected it, otherwise the recipient in
/// validated form — and is checked after ownership. No funds move, and the
/// option may be transferred even after expiry.
pub fn execute_transfer(
    cell: &mut Option<State>,
    sender: &Addr,
    recipient: String,
    validated: Option<Addr>,
) -> (r: Result<Response, ContractError>)
    requires
        validated matches Some(a) ==> a@ == recipient@,
    ensures
        follows(
            spec_transfer(old(cell).deep_view(), sender@, recipient@, validated.deep_view()),
            old(cell).deep_view(),
            final(cell).deep_view(),
            r,
        ),
{
    let ghost rv = recipient@;
    let st = cell.take();
    match st {
        None => Err(ContractError::NoRecord {}),
        Some(mut state) => {
            if !addr_eq(sender, &state.owner) {
                *cell = Some(state);
                return Err(ContractError::Unauthorized {});
            }
            match validated {
                None => {
                    *cell = Some(state);
                    Err(ContractError::InvalidRecipient {})
                },
                Some(a) => {
                    let ghost sm = state.deep_view();
                    let ghost av = a@;
                    state.owner = a;
                    proof {
                        assert(state.deep_view() =~~= with_owner(sm, av));
                    }
                    *cell = Some(state);
                    let mut attributes: Vec<Attribute> = Vec::new();
                    attributes.push(
                        Attribute { key: "action".to_owned(), value: "transfer".to_owned() },
                    );
                    attributes.push(Attribute { key: "owner".to_owned(), value: recipient });
                    let resp = Response { messages: Vec::new(), attributes };
                    proof {
                        assert(resp.deep_view() =~~= (ResponseModel {
                            messages: Seq::empty(),
                            attributes: seq![
                                action_attr("transfer"@),
                                AttributeModel { key: "owner"@, value: rv },
                            ],
                        }));
                    }
                    Ok(resp)
                },
            }
        },
    }
}

/// Exercise the option: the owner pays exactly the counter-offer before the
/// expiry, the counter-offer is routed to the creator, the collateral to the
/// owner — in that order — and the record is deleted. The preconditions are
/// checked in order: ownership, then expiry, then the attached funds, which
/// must equal the counter-offer as a multiset.
pub fn execute_execute(
    cell: &mut Option<State>,
    height: u64,
    sender: &Addr,
    funds: Vec<Coin>,
) -> (r: Result<Response, ContractError>)
    ensures
        follows(
            spec_exercise(old(cell).deep_view(), height, sender@, funds.deep_view()),
            old(cell).deep_view(),
            final(cell).deep_view(),
            r,
        ),
{
    let st = cell.take();
    match st {
        None => Err(ContractError::NoRecord {}),
        Some(state) => {
            if !addr_eq(sender, &state.owner) {
                *cell = Some(state);
                return Err(ContractError::Unauthorized {});
            }
            if height >= state.expires {
                let expired = state.expires;
                *cell = Some(state);
                return Err(ContractError::OptionExpired { expired });
            }
            if !funds_match(&funds, &state.counter_offer) {
                let counter_offer = clone_coins(&state.counter_offer);
                *cell = Some(state);
                return Err(ContractError::CounterOfferMismatch { offer: funds, counter_offer });
            }
            let ghost sm = state.deep_view();
            let State { creator, owner, collateral, counter_offer, expires: _ } = state;
            let mut messages: Vec<BankMsg> = Vec::new();
            messages.push(BankMsg { to_address: creator.0, amount: counter_offer });
            messages.push(BankMsg { to_address: owner.0, amount: collateral });
            let mut attributes: Vec<Attribute> = Vec::new();
            attributes.push(Attribute { key: "action".to_owned(), value: "execute".to_owned() });
            let resp = Response { messages, attributes };
            proof {
                assert(resp.deep_view() =~~= (ResponseModel {
                    messages: seq![
                        BankMsgModel { to_address: sm.creator, amount: sm.counter_offer },
                        BankMsgModel { to_address: sm.owner, amount: sm.collateral },
                    ],
                    attributes: seq![action_attr("execute"@)],
                }));
            }
            Ok(resp)
        },
    }
}

/// Reclaim an expired option: anyone may call this once the expiry has been
/// reached, with no funds attached; the collateral is routed back to the
/// creator and the record is deleted.
pub fn execute_burn(cell: &mut Option<State>, height: u64, funds: Vec<Coin>) -> (r: Result<
    Response,
    ContractError,
>)
    ensures
        follows(
            spec_burn(old(cell).deep_view(), height, funds.deep_view()),
            old(cell).deep_view(),
            final(cell).deep_view(),
            r,
        ),
{
    let st = cell.take();
    match st {
        None => Err(ContractError::NoRecord {}),
        Some(state) => {
            if height < state.expires {
                let expires = state.expires;
                *cell = Some(state);
                return Err(ContractError::OptionNotExpired { expires });
            }
            if funds.len() != 0 {
                *cell = Some(state);
                return Err(ContractError::FundsSentWithBurn {});
            }
            let ghost sm = state.deep_view();
            let State { creator, owner: _, collateral, counter_offer: _, expires: _ } = state;
            let mut messages: Vec<BankMsg> = Vec::new();
            messages.push(BankMsg { to_address: creator.0, amount: collateral });
            let mut attributes: Vec<Attribute> = Vec::new();
            attributes.push(Attribute { key: "action".to_owned(), value: "burn".to_owned() });
            let resp = Response { messages, attributes };
            proof {
                assert(resp.deep_view() =~~= (ResponseModel {
                    messages: seq![BankMsgModel { to_address: sm.creator, amount: sm.collateral }],
                    attributes: seq![action_attr("burn"@)],
                }));
            }
            Ok(resp)
        },
    }
}

/// Dispatch a mutating command to its handler. `validated` is the
/// environment's verdict on the recipient identity and is read only by
/// `Transfer`.
pub fn execute(
    cell: &mut Option<State>,
    height: u64,
    sender: Addr,
    funds: Vec<Coin>,
    msg: ExecuteMsg,
    validated: Option<Addr>,
) -> (r: Result<Response, ContractError>)
    requires
        msg matches ExecuteMsg::Transfer { recipient } ==> (validated matches Some(a) ==> a@
            == recipient@),
    ensures
        follows(
            spec_execute(
                old(cell).deep_view(),
                height,
                sender@,
                funds.deep_view(),
                msg,
                validated.deep_view(),
            ),
            old(cell).deep_view(),
            final(cell).deep_view(),
            r,
        ),
{
    match msg {
        ExecuteMsg::Transfer { recipient } => execute_transfer(cell, &sender, recipient, validated),
        ExecuteMsg::Execute {} => execute_execute(cell, height, &sender, funds),
        ExecuteMsg::Burn {} => execute_burn(cell, height, funds),
    }
}

/// The full current record, or `NoRecord` when none exists (for instance
/// after a successful exercise or reclaim). Pure and side-effect-free.
pub fn query_config<'a>(cell: &'a Option<State>) -> (r: Result<&'a State, ContractError>)
    ensures
        (*cell) matches Some(s) ==> (r matches Ok(c) && *c == s),
        (*cell) is None ==> (r matches Err(e) && e.deep_view() == ErrModel::NoRecord),
{
    match cell {
        Some(s) => Ok(s),
        None => Err(ContractError::NoRecord {}),
    }
}

/// Dispatch a read-only query.
pub fn query<'a>(cell: &'a Option<State>, msg: QueryMsg) -> (r: Result<&'a State, ContractError>)
    ensures
        (*cell) matches Some(s) ==> (r matches Ok(c) && *c == s),
        (*cell) is None ==> (r matches Err(e) && e.deep_view() == ErrModel::NoRecord),
{
    match msg {
        QueryMsg::Config {} => query_config(cell),
    }
}

} // verus!
