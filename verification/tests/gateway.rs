use reflect::api::Api;
use reflect::contract::{delayer, query, query_owner, Deps};
use reflect::errors::StdError;
use reflect::msg::QueryMsg;
use reflect::querier::{
    ContractResult, Querier, QuerierAnswer, QueryRequest, SpecialQuery, SpecialResponse,
    SystemError, SystemResult, WasmQuery,
};
use reflect::state::Storage;
use reflect::testing::{mock_dependencies_with_custom_querier, mock_env, mock_info};
use reflect::types::{coins, Binary, HumanAddr};

fn deps_with_raw_store() -> Deps {
    Deps {
        storage: Storage::new(),
        api: Api {
            canonical_length: 24,
        },
        querier: Querier {
            balances: vec![],
            raw_store: vec![(
                HumanAddr::from("the-unit"),
                vec![(Binary(b"present".to_vec()), Binary(b"stored-value".to_vec()))],
            )],
        },
    }
}

#[test]
fn raw_query_missing_key_returns_empty() {
    let deps = deps_with_raw_store();
    let msg = QueryMsg::Raw {
        contract: HumanAddr::from("the-unit"),
        key: Binary(b"missing".to_vec()),
    };
    let response = query(&deps, mock_env(), msg).unwrap();
    match response {
        reflect::msg::QueryResponse::Raw(raw) => assert_eq!(raw.data, Binary(vec![])),
        other => panic!("Unexpected response: {:?}", other),
    }
}

#[test]
fn raw_query_present_key_returns_value() {
    let deps = deps_with_raw_store();
    let msg = QueryMsg::Raw {
        contract: HumanAddr::from("the-unit"),
        key: Binary(b"present".to_vec()),
    };
    let response = query(&deps, mock_env(), msg).unwrap();
    match response {
        reflect::msg::QueryResponse::Raw(raw) => {
            assert_eq!(raw.data, Binary(b"stored-value".to_vec()))
        }
        other => panic!("Unexpected response: {:?}", other),
    }
}

#[test]
fn raw_query_unknown_unit_is_transport_error() {
    let deps = deps_with_raw_store();
    let msg = QueryMsg::Raw {
        contract: HumanAddr::from("nobody-home"),
        key: Binary(b"present".to_vec()),
    };
    let err = query(&deps, mock_env(), msg).unwrap_err();
    match err {
        StdError::GenericErr { msg } => {
            assert_eq!(msg, "Querier system error: no such contract: nobody-home")
        }
        other => panic!("Unexpected error: {:?}", other),
    }
}

#[test]
fn delayer_distinguishes_three_outcomes() {
    let success = delayer(SystemResult::Delivered(ContractResult::Accepted(
        QuerierAnswer::Special(SpecialResponse {
            msg: "pong".to_string(),
        }),
    )));
    let value = success.unwrap();
    assert_eq!(
        value.data,
        QuerierAnswer::Special(SpecialResponse {
            msg: "pong".to_string()
        })
    );

    let logical = delayer(SystemResult::Delivered(ContractResult::Rejected(
        "bad request".to_string(),
    )));
    let logical_err = logical.unwrap_err();
    assert_eq!(
        logical_err,
        StdError::GenericErr {
            msg: "Querier contract error: bad request".to_string()
        }
    );

    let transport = delayer(SystemResult::SystemErr(SystemError::NoSuchContract {
        addr: HumanAddr::from("nobody-home"),
    }));
    let transport_err = transport.unwrap_err();
    assert_eq!(
        transport_err,
        StdError::GenericErr {
            msg: "Querier system error: no such contract: nobody-home".to_string()
        }
    );

    // the three outcomes are pairwise distinguishable
    assert_ne!(logical_err, transport_err);
}

#[test]
fn chain_query_smart_request_is_transport_error() {
    let deps = mock_dependencies_with_custom_querier(vec![]);
    let msg = QueryMsg::Chain {
        request: QueryRequest::Wasm(WasmQuery::Smart {
            contract_addr: HumanAddr::from("nobody-home"),
            msg: Binary(vec![]),
        }),
    };
    let err = query(&deps, mock_env(), msg).unwrap_err();
    match err {
        StdError::GenericErr { msg } => assert!(msg.starts_with("Querier system error: ")),
        other => panic!("Unexpected error: {:?}", other),
    }
}

#[test]
fn capitalized_query_rejects_non_ascii_as_logical_error() {
    let deps = mock_dependencies_with_custom_querier(vec![]);
    let msg = QueryMsg::Capitalized {
        text: "sch\u{f6}n".to_string(),
    };
    let err = query(&deps, mock_env(), msg).unwrap_err();
    match err {
        StdError::GenericErr { msg } => {
            assert_eq!(msg, "Querier contract error: expected ASCII text")
        }
        other => panic!("Unexpected error: {:?}", other),
    }
}

#[test]
fn change_owner_failure_leaves_owner_unchanged() {
    let mut deps = mock_dependencies_with_custom_querier(vec![]);
    let info = mock_info("creator", coins(2, "token"));
    reflect::contract::init(
        &mut deps,
        mock_env(),
        info,
        reflect::msg::InitMsg { callback_id: None },
    )
    .unwrap();

    let info = mock_info("creator", vec![]);
    let msg = reflect::msg::HandleMsg::ChangeOwner {
        owner: HumanAddr::from("x"),
    };
    reflect::contract::handle(&mut deps, mock_env(), info, msg).unwrap_err();

    // the failed command wrote nothing
    let value = query_owner(&deps).unwrap();
    assert_eq!("creator", value.owner.as_str());
}

#[test]
fn delayer_renders_unsupported_request() {
    let transport = delayer(SystemResult::SystemErr(SystemError::UnsupportedRequest {
        kind: "ibc".to_string(),
    }));
    assert_eq!(
        transport.unwrap_err(),
        StdError::GenericErr {
            msg: "Querier system error: unsupported request: ibc".to_string()
        }
    );
}

#[test]
fn owner_query_is_idempotent() {
    let mut deps = mock_dependencies_with_custom_querier(vec![]);
    let info = mock_info("creator", coins(2, "token"));
    reflect::contract::init(
        &mut deps,
        mock_env(),
        info,
        reflect::msg::InitMsg { callback_id: None },
    )
    .unwrap();

    let first = query_owner(&deps).unwrap();
    let second = query_owner(&deps).unwrap();
    assert_eq!(first, second);
    assert_eq!(first.owner.as_str(), "creator");
}

#[test]
fn owner_query_before_initialization_is_not_found() {
    let deps = mock_dependencies_with_custom_querier(vec![]);
    let err = query_owner(&deps).unwrap_err();
    assert_eq!(
        err,
        StdError::NotFound {
            kind: "State".to_string()
        }
    );
}

#[test]
fn bank_balance_query_answers_single_denomination() {
    let deps = mock_dependencies_with_custom_querier(coins(55, "ucosm"));
    let request: QueryRequest<SpecialQuery> =
        QueryRequest::Bank(reflect::querier::BankQuery::Balance {
            address: reflect::testing::mock_contract_addr(),
            denom: "ucosm".to_string(),
        });
    let answer = deps.querier.handle_query(&request);
    match answer {
        SystemResult::Delivered(ContractResult::Accepted(QuerierAnswer::Balance(c))) => {
            assert_eq!(c.amount, 55);
            assert_eq!(c.denom, "ucosm");
        }
        other => panic!("Unexpected answer: {:?}", other),
    }
}
