//! What a successful command returns: queued fund transfers and
//! observability attributes.

use vstd::prelude::*;
use crate::funds::{Coin, CoinModel};

verus! {

/// An instruction for the host to move funds to an address once the
/// invocation has committed.
#[derive(Debug, PartialEq, Eq)]
pub struct BankMsg {
    pub to_address: String,
    pub amount: Vec<Coin>,
}

/// Mathematical model of a `BankMsg`.
#[verifier::ext_equal]
pub struct BankMsgModel {
    pub to_address: Seq<char>,
    pub amount: Seq<CoinModel>,
}

impl DeepView for BankMsg {
    type V = BankMsgModel;

    open spec fn deep_view(&self) -> BankMsgModel {
        BankMsgModel { to_address: self.to_address@, amount: self.amount.deep_view() }
    }
}

/// One observability key-value pair.
#[derive(Debug, PartialEq, Eq)]
pub struct Attribute {
    pub key: String,
    pub value: String,
}

/// Mathematical model of an `Attribute`.
#[verifier::ext_equal]
pub struct AttributeModel {
    pub key: Seq<char>,
    pub value: Seq<char>,
}

impl DeepView for Attribute {
    type V = AttributeModel;

    open spec fn deep_view(&self) -> AttributeModel {
        AttributeModel { key: self.key@, value: self.value@ }
    }
}

/// The result of a successful mutating command: zero or more queued fund
/// transfers, executed by the host in order, and a set of attributes.
#[derive(Debug, PartialEq, Eq)]
pub struct Response {
    pub messages: Vec<BankMsg>,
    pub attributes: Vec<Attribute>,
}

/// Mathematical model of a `Response`.
#[verifier::ext_equal]
pub struct ResponseModel {
    pub messages: Seq<BankMsgModel>,
    pub attributes: Seq<AttributeModel>,
}

impl DeepView for Response {
    type V = ResponseModel;

    open spec fn deep_view(&self) -> ResponseModel {
        ResponseModel {
            messages: self.messages.deep_view(),
            attributes: self.attributes.deep_view(),
        }
    }
}

/// The model of a response with no transfers and no attributes.
pub open spec fn empty_response() -> ResponseModel {
    ResponseModel { messages: Seq::empty(), attributes: Seq::empty() }
}

impl Default for Response {
    /// A response with no transfers and no attributes.
    fn default() -> (r: Response)
        ensures
            r.deep_view() == empty_response(),
    {
        let r = Response { messages: Vec::new(), attributes: Vec::new() };
        proof {
            assert(r.deep_view() =~~= empty_response());
        }
        r
    }
}

} // verus!
