//! The call shapes of the three entry points, the outbound message
//! union with its open custom arm, and the structured query responses.

use vstd::prelude::*;
use crate::querier::{QuerierAnswer, QueryRequest, SpecialQuery};
use crate::types::{Binary, Coin, HumanAddr};

verus! {

/// The open extension arm of the outbound message union: an arbitrary
/// payload the hosting environment understands.
#[derive(Clone, Debug, PartialEq, Eq)]
pub enum CustomMsg {
    Raw(Binary),
    Debug(String),
}

/// Value transfers.
#[derive(Clone, Debug, PartialEq, Eq)]
pub enum BankMsg {
    Send { to_address: HumanAddr, amount: Vec<Coin> },
}

/// Validator-delegation operations.
#[derive(Clone, Debug, PartialEq, Eq)]
pub enum StakingMsg {
    Delegate { validator: HumanAddr, amount: Coin },
    Undelegate { validator: HumanAddr, amount: Coin },
    Withdraw { validator: HumanAddr, recipient: Option<HumanAddr> },
    Redelegate { src_validator: HumanAddr, dst_validator: HumanAddr, amount: Coin },
}

/// Cross-unit execute and instantiate calls.
#[derive(Clone, Debug, PartialEq, Eq)]
pub enum WasmMsg {
    Execute { contract_addr: HumanAddr, msg: Binary, send: Vec<Coin> },
    Instantiate { code_id: u64, msg: Binary, send: Vec<Coin>, label: Option<String> },
}

/// An outbound effect to be carried out by the hosting environment
/// after the call returns.
#[derive(Clone, Debug, PartialEq, Eq)]
pub enum CosmosMsg<T> {
    Bank(BankMsg),
    Custom(T),
    Staking(StakingMsg),
    Wasm(WasmMsg),
}

/// The initialize call: an optional callback correlation id.
#[derive(Clone, Debug, PartialEq, Eq)]
pub struct InitMsg {
    pub callback_id: Option<String>,
}

/// The two mutation commands of the handle entry point.
#[derive(Clone, Debug, PartialEq, Eq)]
pub enum HandleMsg {
    ReflectMsg { msgs: Vec<CosmosMsg<CustomMsg>> },
    ChangeOwner { owner: HumanAddr },
}

/// The four query shapes.
#[derive(Clone, Debug, PartialEq, Eq)]
pub enum QueryMsg {
    Owner {},
    Capitalized { text: String },
    Chain { request: QueryRequest<SpecialQuery> },
    Raw { contract: HumanAddr, key: Binary },
}

/// The acknowledgement payload sent back to an initializing caller.
#[derive(Clone, Debug, PartialEq, Eq)]
pub enum CallbackMsg {
    InitCallback { id: String, contract_addr: HumanAddr },
}

#[derive(Clone, Debug, PartialEq, Eq)]
pub struct OwnerResponse {
    pub owner: HumanAddr,
}

#[derive(Clone, Debug, PartialEq, Eq)]
pub struct CapitalizedResponse {
    pub text: String,
}

#[derive(Clone, Debug, PartialEq, Eq)]
pub struct ChainResponse {
    pub data: QuerierAnswer,
}

#[derive(Clone, Debug, PartialEq, Eq)]
pub struct RawResponse {
    pub data: Binary,
}

/// The structured result of the query entry point; the wire encoding
/// of this value is the hosting environment's concern.
#[derive(Clone, Debug, PartialEq, Eq)]
pub enum QueryResponse {
    Owner(OwnerResponse),
    Capitalized(CapitalizedResponse),
    Chain(ChainResponse),
    Raw(RawResponse),
}

} // verus!
