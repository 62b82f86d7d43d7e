use reflect::api::Api;
use reflect::codec::{decode_callback, encode_callback};
use reflect::msg::{BankMsg, CallbackMsg, CosmosMsg, CustomMsg};
use reflect::response::{attr, Attribute, Response};
use reflect::types::{coins, Binary, HumanAddr};

#[test]
fn new_envelope_is_empty() {
    let resp: Response<CustomMsg> = Response::new();
    assert_eq!(0, resp.messages.len());
    assert_eq!(0, resp.attributes.len());
    assert_eq!(None, resp.data);
}

#[test]
fn envelope_accumulates_in_order() {
    let mut resp: Response<CustomMsg> = Response::new();
    resp.add_attribute("action", "release");
    resp.add_attribute("action", "release");
    resp.add_message(CosmosMsg::Bank(BankMsg::Send {
        to_address: HumanAddr::from("you"),
        amount: coins(1015, "earth"),
    }));
    resp.add_message(CosmosMsg::Custom(CustomMsg::Debug("second".to_string())));

    // duplicates are kept, insertion order is preserved
    assert_eq!(
        resp.attributes,
        vec![attr("action", "release"), attr("action", "release")]
    );
    assert_eq!(2, resp.messages.len());
    match &resp.messages[1] {
        CosmosMsg::Custom(CustomMsg::Debug(text)) => assert_eq!(text, "second"),
        other => panic!("Unexpected message: {:?}", other),
    }
}

#[test]
fn set_data_last_write_wins() {
    let mut resp: Response<CustomMsg> = Response::new();
    assert_eq!(None, resp.data);
    resp.set_data(Binary(vec![0xAA, 0xBB]));
    resp.set_data(Binary(vec![0xCC]));
    assert_eq!(Some(Binary(vec![0xCC])), resp.data);
}

#[test]
fn default_envelope_is_empty() {
    let resp: Response<CustomMsg> = Default::default();
    assert_eq!(resp, Response::new());
}

#[test]
fn canonical_address_rejects_invalid_characters() {
    let api = Api {
        canonical_length: 24,
    };
    let err = api
        .canonical_address(&HumanAddr::from("ab\u{0}cd"))
        .unwrap_err();
    match err {
        reflect::errors::StdError::GenericErr { msg } => {
            assert!(msg.contains("contains invalid characters"))
        }
        other => panic!("Unexpected error: {:?}", other),
    }
}

#[test]
fn attr_builds_one_pair() {
    let a = attr("key", "value");
    assert_eq!(
        a,
        Attribute {
            key: "key".to_string(),
            value: "value".to_string()
        }
    );
}

#[test]
fn callback_payload_round_trips() {
    let original = CallbackMsg::InitCallback {
        id: "foobar".to_string(),
        contract_addr: HumanAddr::from("calling-contract"),
    };
    let encoded = encode_callback(&original);
    let decoded = decode_callback(&encoded).unwrap();
    assert_eq!(original, decoded);
}

#[test]
fn callback_decode_rejects_truncated_frames() {
    let original = CallbackMsg::InitCallback {
        id: "foobar".to_string(),
        contract_addr: HumanAddr::from("calling-contract"),
    };
    let encoded = encode_callback(&original);
    let mut bytes = encoded.0.clone();
    bytes.pop();
    assert_eq!(None, decode_callback(&Binary(bytes)));
    assert_eq!(None, decode_callback(&Binary(vec![1, 2, 3])));
}

#[test]
fn canonical_address_round_trips_and_validates() {
    let api = Api {
        canonical_length: 24,
    };
    let canonical = api.canonical_address(&HumanAddr::from("creator")).unwrap();
    assert_eq!(24, canonical.0.len());
    let display = api.human_address(&canonical).unwrap();
    assert_eq!("creator", display.as_str());

    // distinct inputs stay distinct
    let other = api.canonical_address(&HumanAddr::from("random")).unwrap();
    assert_ne!(canonical, other);

    // an over-long display form is rejected with its own diagnostic
    let too_long = api.canonical_address(&HumanAddr::from("a-very-long-display-address"));
    match too_long.unwrap_err() {
        reflect::errors::StdError::GenericErr { msg } => {
            assert!(msg.contains("human address too long"))
        }
        other => panic!("Unexpected error: {:?}", other),
    }
}
