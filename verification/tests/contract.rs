use reflect::codec::decode_callback;
use reflect::contract::{handle, init, query, query_owner};
use reflect::errors::{ReflectError, StdError};
use reflect::msg::{
    BankMsg, CallbackMsg, CosmosMsg, CustomMsg, HandleMsg, InitMsg, QueryMsg, QueryResponse,
    StakingMsg, WasmMsg,
};
use reflect::querier::{BankQuery, QuerierAnswer, QueryRequest, SpecialQuery};
use reflect::testing::{
    mock_contract_addr, mock_dependencies_with_custom_querier, mock_env, mock_info,
};
use reflect::types::{coin, coins, Binary, HumanAddr};

#[test]
fn proper_initialization() {
    let mut deps = mock_dependencies_with_custom_querier(vec![]);

    let msg = InitMsg { callback_id: None };
    let info = mock_info("creator", coins(1000, "earth"));

    // we can just call .unwrap() to assert this was a success
    let res = init(&mut deps, mock_env(), info, msg).unwrap();
    assert_eq!(0, res.messages.len());

    // it worked, let's query the state
    let value = query_owner(&deps).unwrap();
    assert_eq!("creator", value.owner.as_str());
}

#[test]
fn init_with_callback() {
    let mut deps = mock_dependencies_with_custom_querier(vec![]);
    let caller = HumanAddr::from("calling-contract");

    let msg = InitMsg {
        callback_id: Some("foobar".to_string()),
    };
    let info = mock_info(caller.as_str(), coins(1000, "earth"));

    // we can just call .unwrap() to assert this was a success
    let res = init(&mut deps, mock_env(), info, msg).unwrap();
    assert_eq!(1, res.messages.len());
    let msg = &res.messages[0];
    match msg {
        CosmosMsg::Wasm(WasmMsg::Execute {
            contract_addr,
            msg,
            send,
        }) => {
            assert_eq!(contract_addr, &caller);
            let parsed: CallbackMsg = decode_callback(msg).unwrap();
            assert_eq!(
                parsed,
                CallbackMsg::InitCallback {
                    id: "foobar".to_string(),
                    contract_addr: mock_contract_addr(),
                }
            );
            assert_eq!(0, send.len());
        }
        _ => panic!("expect wasm execute message"),
    }

    // it worked, let's query the state
    let value = query_owner(&deps).unwrap();
    assert_eq!(caller, value.owner);
}

#[test]
fn reflect() {
    let mut deps = mock_dependencies_with_custom_querier(vec![]);

    let msg = InitMsg { callback_id: None };
    let info = mock_info("creator", coins(2, "token"));
    let _res = init(&mut deps, mock_env(), info, msg).unwrap();

    let payload = vec![CosmosMsg::Bank(BankMsg::Send {
        to_address: HumanAddr::from("friend"),
        amount: coins(1, "token"),
    })];

    let msg = HandleMsg::ReflectMsg {
        msgs: payload.clone(),
    };
    let info = mock_info("creator", vec![]);
    let res = handle(&mut deps, mock_env(), info, msg).unwrap();
    assert_eq!(payload, res.messages);
}

#[test]
fn reflect_requires_owner() {
    let mut deps = mock_dependencies_with_custom_querier(vec![]);

    let msg = InitMsg { callback_id: None };
    let info = mock_info("creator", coins(2, "token"));
    let _res = init(&mut deps, mock_env(), info, msg).unwrap();

    // signer is not owner
    let payload = vec![CosmosMsg::Bank(BankMsg::Send {
        to_address: HumanAddr::from("friend"),
        amount: coins(1, "token"),
    })];
    let msg = HandleMsg::ReflectMsg {
        msgs: payload.clone(),
    };

    let info = mock_info("random", vec![]);
    let res = handle(&mut deps, mock_env(), info, msg);
    match res.unwrap_err() {
        ReflectError::NotCurrentOwner { .. } => {}
        err => panic!("Unexpected error: {:?}", err),
    }
}

#[test]
fn reflect_reject_empty_msgs() {
    let mut deps = mock_dependencies_with_custom_querier(vec![]);

    let msg = InitMsg { callback_id: None };
    let info = mock_info("creator", coins(2, "token"));
    let _res = init(&mut deps, mock_env(), info, msg).unwrap();

    let info = mock_info("creator", vec![]);
    let payload = vec![];

    let msg = HandleMsg::ReflectMsg {
        msgs: payload.clone(),
    };
    let err = handle(&mut deps, mock_env(), info, msg).unwrap_err();
    assert_eq!(err, ReflectError::MessagesEmpty);
}

#[test]
fn reflect_multiple_messages() {
    let mut deps = mock_dependencies_with_custom_querier(vec![]);

    let msg = InitMsg { callback_id: None };
    let info = mock_info("creator", coins(2, "token"));
    let _res = init(&mut deps, mock_env(), info, msg).unwrap();

    let payload = vec![
        CosmosMsg::Bank(BankMsg::Send {
            to_address: HumanAddr::from("friend"),
            amount: coins(1, "token"),
        }),
        // make sure we can pass through custom native messages
        CosmosMsg::Custom(CustomMsg::Raw(Binary(b"{\"foo\":123}".to_vec()))),
        CosmosMsg::Custom(CustomMsg::Debug("Hi, Dad!".to_string())),
        CosmosMsg::Staking(StakingMsg::Delegate {
            validator: HumanAddr::from("validator"),
            amount: coin(100, "ustake"),
        }),
    ];

    let msg = HandleMsg::ReflectMsg {
        msgs: payload.clone(),
    };
    let info = mock_info("creator", vec![]);
    let res = handle(&mut deps, mock_env(), info, msg).unwrap();
    assert_eq!(payload, res.messages);
}

#[test]
fn change_owner_works() {
    let mut deps = mock_dependencies_with_custom_querier(vec![]);

    let msg = InitMsg { callback_id: None };
    let info = mock_info("creator", coins(2, "token"));
    let _res = init(&mut deps, mock_env(), info, msg).unwrap();

    let info = mock_info("creator", vec![]);
    let new_owner = HumanAddr::from("friend");
    let msg = HandleMsg::ChangeOwner {
        owner: new_owner.clone(),
    };
    let res = handle(&mut deps, mock_env(), info, msg).unwrap();

    // should change state
    assert_eq!(0, res.messages.len());
    let value = query_owner(&deps).unwrap();
    assert_eq!("friend", value.owner.as_str());
}

#[test]
fn change_owner_requires_current_owner_as_sender() {
    let mut deps = mock_dependencies_with_custom_querier(vec![]);

    let msg = InitMsg { callback_id: None };
    let creator = HumanAddr::from("creator");
    let info = mock_info(creator.as_str(), coins(2, "token"));
    let _res = init(&mut deps, mock_env(), info, msg).unwrap();

    let random = HumanAddr::from("random");
    let info = mock_info(random.as_str(), vec![]);
    let new_owner = HumanAddr::from("friend");
    let msg = HandleMsg::ChangeOwner {
        owner: new_owner.clone(),
    };

    let err = handle(&mut deps, mock_env(), info, msg).unwrap_err();
    let expected = deps.api.canonical_address(&creator).unwrap();
    let actual = deps.api.canonical_address(&random).unwrap();
    assert_eq!(err, ReflectError::NotCurrentOwner { expected, actual });
}

#[test]
fn change_owner_errors_for_invalid_new_address() {
    let mut deps = mock_dependencies_with_custom_querier(vec![]);
    let creator = HumanAddr::from("creator");

    let msg = InitMsg { callback_id: None };
    let info = mock_info(creator.as_str(), coins(2, "token"));
    let _res = init(&mut deps, mock_env(), info, msg).unwrap();

    let info = mock_info(creator.as_str(), vec![]);
    let msg = HandleMsg::ChangeOwner {
        owner: HumanAddr::from("x"),
    };
    let err = handle(&mut deps, mock_env(), info, msg).unwrap_err();
    match err {
        ReflectError::Std(StdError::GenericErr { msg }) => {
            assert!(msg.contains("human address too short"))
        }
        e => panic!("Unexpected error: {:?}", e),
    }
}

#[test]
fn capitalized_query_works() {
    let deps = mock_dependencies_with_custom_querier(vec![]);

    let msg = QueryMsg::Capitalized {
        text: "demo one".to_string(),
    };
    let response = query(&deps, mock_env(), msg).unwrap();
    match response {
        QueryResponse::Capitalized(value) => assert_eq!(value.text, "DEMO ONE"),
        other => panic!("Unexpected response: {:?}", other),
    }
}

#[test]
fn chain_query_works() {
    let deps = mock_dependencies_with_custom_querier(coins(123, "ucosm"));

    // with bank query
    let msg = QueryMsg::Chain {
        request: QueryRequest::Bank(BankQuery::AllBalances {
            address: mock_contract_addr(),
        }),
    };
    let response = query(&deps, mock_env(), msg).unwrap();
    match response {
        QueryResponse::Chain(outer) => match outer.data {
            QuerierAnswer::Balances(amount) => assert_eq!(amount, coins(123, "ucosm")),
            other => panic!("Unexpected answer: {:?}", other),
        },
        other => panic!("Unexpected response: {:?}", other),
    }

    // with custom query
    let msg = QueryMsg::Chain {
        request: QueryRequest::Custom(SpecialQuery::Ping {}),
    };
    let response = query(&deps, mock_env(), msg).unwrap();
    match response {
        QueryResponse::Chain(outer) => match outer.data {
            QuerierAnswer::Special(inner) => assert_eq!(inner.msg, "pong"),
            other => panic!("Unexpected answer: {:?}", other),
        },
        other => panic!("Unexpected response: {:?}", other),
    }
}
