//! Ready-made collaborators for exercising the entry points: an empty
//! store, the address codec with its default canonical length, and the
//! testing querier primed with this unit's own balance.

use vstd::prelude::*;
use crate::api::Api;
use crate::contract::{ContractInfo, Deps, Env, MessageInfo};
use crate::querier::Querier;
use crate::state::Storage;
use crate::types::{Coin, HumanAddr};

verus! {

/// The display identity the host reports for this unit in tests.
pub fn mock_contract_addr() -> (a: HumanAddr)
    ensures
        a@ == "cosmos2contract"@,
{
    HumanAddr::from("cosmos2contract")
}

/// The surroundings of a test call.
pub fn mock_env() -> (env: Env)
    ensures
        env.contract.address@ == "cosmos2contract"@,
{
    Env { contract: ContractInfo { address: mock_contract_addr() } }
}

/// A caller with the funds it sends along.
pub fn mock_info(sender: &str, sent_funds: Vec<Coin>) -> (info: MessageInfo)
    ensures
        info.sender@ == sender@,
        info.sent_funds == sent_funds,
{
    MessageInfo { sender: HumanAddr::from(sender), sent_funds }
}

/// A fresh set of collaborators: an uninitialized store, the codec
/// with its default canonical length, and the custom-answering querier
/// holding the given balance for this unit's own address.
pub fn mock_dependencies_with_custom_querier(contract_balance: Vec<Coin>) -> (deps: Deps)
    ensures
        deps.storage.config is None,
        deps.api.canonical_length == 24,
        deps.querier.balances@.len() == 1,
        deps.querier.balances@[0].0@ == "cosmos2contract"@,
        deps.querier.balances@[0].1 == contract_balance,
        deps.querier.raw_store@.len() == 0,
{
    let mut balances: Vec<(HumanAddr, Vec<Coin>)> = Vec::new();
    balances.push((mock_contract_addr(), contract_balance));
    Deps {
        storage: Storage::new(),
        api: Api { canonical_length: 24 },
        querier: Querier { balances, raw_store: Vec::new() },
    }
}

} // verus!
