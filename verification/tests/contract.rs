use simple_option::contract::{
    execute_burn, execute_execute, execute_transfer, instantiate, query_config,
};
use simple_option::error::ContractError;
use simple_option::funds::Coin;
use simple_option::msg::InstantiateMsg;
use simple_option::response::{Attribute, BankMsg};
use simple_option::state::{Addr, State};

/// The block height the host reports while a test has not advanced it.
const MOCK_HEIGHT: u64 = 12_345;

fn coins(amount: u128, denom: &str) -> Vec<Coin> {
    vec![Coin { denom: denom.to_string(), amount }]
}

fn addr(s: &str) -> Addr {
    Addr(s.to_string())
}

#[test]
fn proper_initialization() {
    let mut cell: Option<State> = None;

    let msg = InstantiateMsg { counter_offer: coins(40, "ETH"), expires: 100_000 };

    // we can just call .unwrap() to assert this was a success
    let res = instantiate(&mut cell, MOCK_HEIGHT, addr("creator"), coins(1, "BTC"), msg).unwrap();
    assert_eq!(0, res.messages.len());

    // it worked, let's query the state
    let res = query_config(&cell).unwrap();
    assert_eq!(100_000, res.expires);
    assert_eq!("creator", res.owner.as_str());
    assert_eq!("creator", res.creator.as_str());
    assert_eq!(coins(1, "BTC"), res.collateral);
    assert_eq!(coins(40, "ETH"), res.counter_offer);
}

#[test]
fn transfer() {
    let mut cell: Option<State> = None;

    let msg = InstantiateMsg { counter_offer: coins(40, "ETH"), expires: 100_000 };

    // we can just call .unwrap() to assert this was a success
    let res = instantiate(&mut cell, MOCK_HEIGHT, addr("creator"), coins(1, "BTC"), msg).unwrap();
    assert_eq!(0, res.messages.len());

    // random cannot transfer
    let err = execute_transfer(&mut cell, &addr("anyone"), "anyone".to_string(), Some(addr("anyone")))
        .unwrap_err();
    match err {
        ContractError::Unauthorized {} => {}
        e => panic!("unexpected error: {:?}", e),
    }

    // owner can transfer
    let res = execute_transfer(&mut cell, &addr("creator"), "someone".to_string(), Some(addr("someone")))
        .unwrap();
    assert_eq!(res.attributes.len(), 2);
    assert_eq!(
        res.attributes[0],
        Attribute { key: "action".to_string(), value: "transfer".to_string() }
    );

    // check updated properly
    let res = query_config(&cell).unwrap();
    assert_eq!("someone", res.owner.as_str());
    assert_eq!("creator", res.creator.as_str());
}

#[test]
fn execute() {
    let mut cell: Option<State> = None;

    let amount = coins(40, "ETH");
    let collateral = coins(1, "BTC");
    let expires = 100_000;
    let msg = InstantiateMsg { counter_offer: amount.clone(), expires };

    // we can just call .unwrap() to assert this was a success
    let _ = instantiate(&mut cell, MOCK_HEIGHT, addr("creator"), collateral.clone(), msg).unwrap();

    // set new owner
    let _ = execute_transfer(&mut cell, &addr("creator"), "owner".to_string(), Some(addr("owner")))
        .unwrap();

    // random cannot execute
    let err = execute_execute(&mut cell, MOCK_HEIGHT, &addr("creator"), amount.clone()).unwrap_err();
    match err {
        ContractError::Unauthorized {} => {}
        e => panic!("unexpected error: {:?}", e),
    }

    // expired cannot execute
    let err = execute_execute(&mut cell, 200_000, &addr("owner"), amount.clone()).unwrap_err();
    match err {
        ContractError::OptionExpired { expired } => assert_eq!(expired, expires),
        e => panic!("unexpected error: {:?}", e),
    }

    // bad counter_offer cannot execute
    let msg_offer = coins(39, "ETH");
    let err = execute_execute(&mut cell, MOCK_HEIGHT, &addr("owner"), msg_offer.clone()).unwrap_err();
    match err {
        ContractError::CounterOfferMismatch { offer, counter_offer } => {
            assert_eq!(msg_offer, offer);
            assert_eq!(amount, counter_offer);
        }
        e => panic!("unexpected error: {:?}", e),
    }

    // proper execution
    let res = execute_execute(&mut cell, MOCK_HEIGHT, &addr("owner"), amount.clone()).unwrap();
    assert_eq!(res.messages.len(), 2);
    assert_eq!(
        res.messages[0],
        BankMsg { to_address: "creator".to_string(), amount: amount.clone() }
    );
    assert_eq!(
        res.messages[1],
        BankMsg { to_address: "owner".to_string(), amount: collateral.clone() }
    );

    // check deleted
    let _ = query_config(&cell).unwrap_err();
}

#[test]
fn burn() {
    let mut cell: Option<State> = None;

    let counter_offer = coins(40, "ETH");
    let collateral = coins(1, "BTC");
    let msg_expires = 100_000;
    let msg = InstantiateMsg { counter_offer: counter_offer.clone(), expires: msg_expires };

    // we can just call .unwrap() to assert this was a success
    let _ = instantiate(&mut cell, MOCK_HEIGHT, addr("creator"), collateral.clone(), msg).unwrap();

    // set new owner
    let _ = execute_transfer(&mut cell, &addr("creator"), "owner".to_string(), Some(addr("owner")))
        .unwrap();

    // non-expired cannot execute
    let err = execute_burn(&mut cell, MOCK_HEIGHT, vec![]).unwrap_err();
    match err {
        ContractError::OptionNotExpired { expires } => assert_eq!(expires, msg_expires),
        e => panic!("unexpected error: {:?}", e),
    }

    // with funds cannot execute
    let err = execute_burn(&mut cell, 200_000, counter_offer.clone()).unwrap_err();
    match err {
        ContractError::FundsSentWithBurn {} => {}
        e => panic!("unexpected error: {:?}", e),
    }

    // expired returns funds
    let res = execute_burn(&mut cell, 200_000, vec![]).unwrap();
    assert_eq!(res.messages.len(), 1);
    assert_eq!(
        res.messages[0],
        BankMsg { to_address: "creator".to_string(), amount: collateral.clone() }
    );

    // check deleted
    let _ = query_config(&cell).unwrap_err();
}
