//! The entry-point dispatcher: routes initialize, handle and query
//! calls, guards mutations behind the owner check, and de-layers the
//! query gateway's two-level results.

use vstd::prelude::*;
use vstd::string::*;
use vstd::utf8::{decode_utf8, is_ascii_chars, valid_utf8};
use crate::api::{
    addr_valid, canon_of, canonical_err_msg, lemma_canon_injective, lemma_canonical_round_trip,
    strip_zeros, Api,
};
use crate::codec::{encode_callback, encoded_callback};
use crate::errors::{err_text, ReflectError, StdError};
use crate::msg::{
    CallbackMsg, CapitalizedResponse, ChainResponse, CosmosMsg, CustomMsg, HandleMsg, InitMsg,
    OwnerResponse, QueryMsg, QueryResponse, RawResponse, WasmMsg,
};
use crate::querier::{
    clone_bytes, spec_balances_of, spec_coin_amount, spec_contract_store, spec_describe,
    spec_raw_value, ContractResult, Querier, QuerierAnswer, QueryRequest, SpecialQuery,
    SystemError, SystemResult,
};
use crate::response::{attr, Attribute, Response};
use crate::state::{State, Storage};
use crate::text::upper_chars;
use crate::types::{bytes_eq, Binary, CanonicalAddr, Coin, HumanAddr};

verus! {

/// The identity of this unit as the host reports it.
#[derive(Clone, Debug, PartialEq, Eq)]
pub struct ContractInfo {
    pub address: HumanAddr,
}

/// What the host tells a call about its surroundings.
#[derive(Clone, Debug, PartialEq, Eq)]
pub struct Env {
    pub contract: ContractInfo,
}

/// Who makes the call and what funds ride along.
#[derive(Clone, Debug, PartialEq, Eq)]
pub struct MessageInfo {
    pub sender: HumanAddr,
    pub sent_funds: Vec<Coin>,
}

/// The explicit handle to the collaborators, threaded through every
/// call; never ambient state.
#[derive(Clone, Debug, PartialEq, Eq)]
pub struct Deps {
    pub storage: Storage,
    pub api: Api,
    pub querier: Querier,
}

/// The authorization guard: a pure comparison of binary identities.
/// Failure carries both identities and aborts the call before any
/// mutation.
pub fn authorize(caller: &CanonicalAddr, owner: &CanonicalAddr) -> (r: Result<(), ReflectError>)
    ensures
        caller@ == owner@ ==> r is Ok,
        caller@ != owner@ ==> (r matches Err(e) && e matches ReflectError::NotCurrentOwner {
            expected,
            actual,
        } && expected@ == owner@ && actual@ == caller@),
{
    if bytes_eq(&caller.0, &owner.0) {
        Ok(())
    } else {
        Err(
            ReflectError::NotCurrentOwner {
                expected: CanonicalAddr(clone_bytes(&owner.0)),
                actual: CanonicalAddr(clone_bytes(&caller.0)),
            },
        )
    }
}

/// The reflect rule on plain values: only the owner may reflect, empty
/// requests are rejected, and the envelope carries the input messages
/// unchanged and in order.
pub fn reflect_decision<T>(
    owner: &CanonicalAddr,
    sender: &CanonicalAddr,
    msgs: Vec<CosmosMsg<T>>,
) -> (r: Result<Response<T>, ReflectError>)
    ensures
        sender@ != owner@ ==> (r matches Err(e) && e matches ReflectError::NotCurrentOwner {
            expected,
            actual,
        } && expected@ == owner@ && actual@ == sender@),
        sender@ == owner@ && msgs@.len() == 0 ==> (r matches Err(e) && e
            is MessagesEmpty),
        sender@ == owner@ && msgs@.len() > 0 ==> (r matches Ok(resp) && resp.messages == msgs
            && resp.attributes@.len() == 1 && resp.attributes@[0].key@ == "action"@
            && resp.attributes@[0].value@ == "reflect"@ && resp.data is None),
{
    match authorize(sender, owner) {
        Err(e) => {
            return Err(e);
        },
        Ok(_) => {},
    }
    if msgs.is_empty() {
        return Err(ReflectError::MessagesEmpty);
    }
    let mut attributes: Vec<Attribute> = Vec::new();
    attributes.push(attr("action", "reflect"));
    Ok(Response { messages: msgs, attributes, data: None })
}

/// Exactly what initialization does: store the caller as owner and
/// acknowledge a callback id with one outbound execute message back to
/// the caller.
pub open spec fn init_post(
    old_deps: Deps,
    new_deps: Deps,
    env: Env,
    info: MessageInfo,
    msg: InitMsg,
    r: Result<Response<CustomMsg>, StdError>,
) -> bool {
    let len = old_deps.api.canonical_length as nat;
    &&& new_deps.api == old_deps.api
    &&& new_deps.querier == old_deps.querier
    &&& if addr_valid(len, info.sender@) {
        &&& new_deps.storage.config matches Some(st) && st.owner@ == canon_of(len, info.sender@)
        &&& r matches Ok(resp) && resp.attributes@.len() == 0 && resp.data is None && (match msg.callback_id {
            Some(id) => resp.messages@.len() == 1 && (resp.messages@[0] matches CosmosMsg::Wasm(
                WasmMsg::Execute { contract_addr, msg: payload, send },
            ) && contract_addr@ == info.sender@ && payload@ == encoded_callback(
                id@,
                env.contract.address@,
            ) && send@.len() == 0),
            None => resp.messages@.len() == 0,
        })
    } else {
        &&& new_deps.storage == old_deps.storage
        &&& r matches Err(e) && e matches StdError::GenericErr { msg: m } && m@
            == canonical_err_msg(len, info.sender@)
    }
}

/// Initialize: unconditionally writes the caller as the owner, then
/// acknowledges an optional callback id.
pub fn init(deps: &mut Deps, env: Env, info: MessageInfo, msg: InitMsg) -> (r: Result<
    Response<CustomMsg>,
    StdError,
>)
    ensures
        init_post(*old(deps), *final(deps), env, info, msg, r),
{
    let owner = match deps.api.canonical_address(&info.sender) {
        Ok(c) => c,
        Err(e) => {
            return Err(e);
        },
    };
    deps.storage.save_config(State { owner });
    let mut resp: Response<CustomMsg> = Response::new();
    match msg.callback_id {
        Some(id) => {
            let data = CallbackMsg::InitCallback { id, contract_addr: env.contract.address };
            let payload = encode_callback(&data);
            resp.add_message(
                CosmosMsg::Wasm(
                    WasmMsg::Execute { contract_addr: info.sender, msg: payload, send: Vec::new() },
                ),
            );
        },
        None => {},
    }
    Ok(resp)
}

/// Exactly what a reflect command does: nothing is ever written, and
/// the envelope repeats the input messages exactly when the caller is
/// the owner and the request is non-empty.
pub open spec fn reflect_post(
    old_deps: Deps,
    new_deps: Deps,
    info: MessageInfo,
    msgs: Vec<CosmosMsg<CustomMsg>>,
    r: Result<Response<CustomMsg>, ReflectError>,
) -> bool {
    let len = old_deps.api.canonical_length as nat;
    &&& new_deps == old_deps
    &&& match old_deps.storage.config {
        None => r matches Err(e) && e matches ReflectError::Std(se) && se matches StdError::NotFound { kind }
            && kind@ == "State"@,
        Some(st) => {
            if !addr_valid(len, info.sender@) {
                r matches Err(e) && e matches ReflectError::Std(se) && se matches StdError::GenericErr { msg }
                    && msg@ == canonical_err_msg(len, info.sender@)
            } else if canon_of(len, info.sender@) != st.owner@ {
                r matches Err(e) && e matches ReflectError::NotCurrentOwner { expected, actual }
                    && expected@ == st.owner@ && actual@ == canon_of(len, info.sender@)
            } else if msgs@.len() == 0 {
                r matches Err(e) && e is MessagesEmpty
            } else {
                r matches Ok(resp) && resp.messages == msgs && resp.attributes@.len() == 1
                    && resp.attributes@[0].key@ == "action"@ && resp.attributes@[0].value@
                    == "reflect"@ && resp.data is None
            }
        },
    }
}

/// Reflect: authorizes the caller against the stored owner and returns
/// an envelope whose messages are exactly the request's, in order.
pub fn try_reflect(
    deps: &mut Deps,
    _env: Env,
    info: MessageInfo,
    msgs: Vec<CosmosMsg<CustomMsg>>,
) -> (r: Result<Response<CustomMsg>, ReflectError>)
    ensures
        reflect_post(*old(deps), *final(deps), info, msgs, r),
{
    let state = match deps.storage.load_config() {
        Ok(s) => s,
        Err(e) => {
            return Err(ReflectError::Std(e));
        },
    };
    let sender = match deps.api.canonical_address(&info.sender) {
        Ok(c) => c,
        Err(e) => {
            return Err(ReflectError::Std(e));
        },
    };
    reflect_decision(&state.owner, &sender, msgs)
}

/// Exactly what a change-owner command does: an all-or-nothing
/// read-validate-write; every failure leaves the owner record
/// untouched, and an invalid new address is a generic error, not a
/// domain error.
pub open spec fn change_owner_post(
    old_deps: Deps,
    new_deps: Deps,
    info: MessageInfo,
    new_owner: HumanAddr,
    r: Result<Response<CustomMsg>, ReflectError>,
) -> bool {
    let len = old_deps.api.canonical_length as nat;
    &&& new_deps.api == old_deps.api
    &&& new_deps.querier == old_deps.querier
    &&& match old_deps.storage.config {
        None => new_deps.storage == old_deps.storage && (r matches Err(e) && e matches ReflectError::Std(
            se,
        ) && se matches StdError::NotFound { kind } && kind@ == "State"@),
        Some(st) => {
            if !addr_valid(len, info.sender@) {
                new_deps.storage == old_deps.storage && (r matches Err(e)
                    && e matches ReflectError::Std(se) && se matches StdError::GenericErr { msg }
                    && msg@ == canonical_err_msg(len, info.sender@))
            } else if canon_of(len, info.sender@) != st.owner@ {
                new_deps.storage == old_deps.storage && (r matches Err(e)
                    && e matches ReflectError::NotCurrentOwner { expected, actual } && expected@
                    == st.owner@ && actual@ == canon_of(len, info.sender@))
            } else if !addr_valid(len, new_owner@) {
                new_deps.storage == old_deps.storage && (r matches Err(e)
                    && e matches ReflectError::Std(se) && se matches StdError::GenericErr { msg }
                    && msg@ == canonical_err_msg(len, new_owner@))
            } else {
                &&& new_deps.storage.config matches Some(st2) && st2.owner@ == canon_of(
                    len,
                    new_owner@,
                )
                &&& r matches Ok(resp) && resp.messages@.len() == 0 && resp.data is None
                    && resp.attributes@.len() == 2 && resp.attributes@[0].key@ == "action"@
                    && resp.attributes@[0].value@ == "change_owner"@ && resp.attributes@[1].key@
                    == "owner"@ && resp.attributes@[1].value@ == new_owner@
            }
        },
    }
}

/// Change owner: read, authorize, validate the new identity, and only
/// then write; validation failure short-circuits before the write.
pub fn try_change_owner(deps: &mut Deps, _env: Env, info: MessageInfo, owner: HumanAddr) -> (r:
    Result<Response<CustomMsg>, ReflectError>)
    ensures
        change_owner_post(*old(deps), *final(deps), info, owner, r),
{
    let state = match deps.storage.load_config() {
        Ok(s) => s,
        Err(e) => {
            return Err(ReflectError::Std(e));
        },
    };
    let sender = match deps.api.canonical_address(&info.sender) {
        Ok(c) => c,
        Err(e) => {
            return Err(ReflectError::Std(e));
        },
    };
    match authorize(&sender, &state.owner) {
        Err(e) => {
            return Err(e);
        },
        Ok(_) => {},
    }
    let new_canonical = match deps.api.canonical_address(&owner) {
        Ok(c) => c,
        Err(e) => {
            return Err(ReflectError::Std(e));
        },
    };
    deps.storage.save_config(State { owner: new_canonical });
    let mut resp: Response<CustomMsg> = Response::new();
    resp.add_attribute("action", "change_owner");
    resp.add_attribute("owner", owner.as_str());
    Ok(resp)
}

/// Handle: routes the two mutation commands.
pub fn handle(deps: &mut Deps, env: Env, info: MessageInfo, msg: HandleMsg) -> (r: Result<
    Response<CustomMsg>,
    ReflectError,
>)
    ensures
        match msg {
            HandleMsg::ReflectMsg { msgs } => reflect_post(*old(deps), *final(deps), info, msgs, r),
            HandleMsg::ChangeOwner { owner } => change_owner_post(
                *old(deps),
                *final(deps),
                info,
                owner,
                r,
            ),
        },
{
    match msg {
        HandleMsg::ReflectMsg { msgs } => try_reflect(deps, env, info, msgs),
        HandleMsg::ChangeOwner { owner } => try_change_owner(deps, env, info, owner),
    }
}

/// Exactly what the owner query returns: the stored identity in its
/// display form, read-only.
pub open spec fn owner_query_post(deps: Deps, r: Result<OwnerResponse, StdError>) -> bool {
    let len = deps.api.canonical_length as nat;
    match deps.storage.config {
        None => r matches Err(e) && e matches StdError::NotFound { kind } && kind@ == "State"@,
        Some(st) => {
            if st.owner@.len() != len {
                r matches Err(e) && e matches StdError::GenericErr { msg } && msg@
                    == "Invalid input: canonical address length not correct"@
            } else if valid_utf8(strip_zeros(st.owner@)) {
                r matches Ok(o) && o.owner@ == decode_utf8(strip_zeros(st.owner@))
            } else {
                r matches Err(e) && e matches StdError::GenericErr { msg } && msg@
                    == "Invalid input: canonical address is not valid UTF-8"@
            }
        },
    }
}

/// Owner query: reads the record and converts it to display form.
pub fn query_owner(deps: &Deps) -> (r: Result<OwnerResponse, StdError>)
    ensures
        owner_query_post(*deps, r),
{
    let state = match deps.storage.load_config() {
        Ok(s) => s,
        Err(e) => {
            return Err(e);
        },
    };
    match deps.api.human_address(&state.owner) {
        Ok(owner) => Ok(OwnerResponse { owner }),
        Err(e) => Err(e),
    }
}

/// Capitalized query: a pass-through to the custom-query collaborator,
/// returned verbatim.
pub fn query_capitalized(deps: &Deps, text: String) -> (r: Result<CapitalizedResponse, StdError>)
    ensures
        is_ascii_chars(text@) ==> (r matches Ok(c) && c.text@ == upper_chars(text@)),
        !is_ascii_chars(text@) ==> (r matches Err(e) && e matches StdError::GenericErr { msg }
            && msg@ == "Querier contract error: "@ + "expected ASCII text"@),
{
    match deps.querier.custom_query(SpecialQuery::Capitalized { text }) {
        Ok(response) => Ok(CapitalizedResponse { text: response.msg }),
        Err(e) => Err(e),
    }
}

/// Exactly how the two result layers are unwrapped: transport
/// failures, logical failures and values map to three distinct,
/// never-conflated outcomes.
pub open spec fn delayer_post(
    layered: SystemResult<ContractResult<QuerierAnswer>>,
    r: Result<ChainResponse, StdError>,
) -> bool {
    match layered {
        SystemResult::SystemErr(se) => r matches Err(e) && e matches StdError::GenericErr { msg }
            && msg@ == "Querier system error: "@ + spec_describe(se),
        SystemResult::Delivered(ContractResult::Rejected(cm)) => r matches Err(e)
            && e matches StdError::GenericErr { msg } && msg@ == "Querier contract error: "@ + cm@,
        SystemResult::Delivered(ContractResult::Accepted(value)) => r matches Ok(c) && c.data
            == value,
    }
}

/// Unwraps a layered query result, keeping the three outcomes apart.
pub fn delayer(layered: SystemResult<ContractResult<QuerierAnswer>>) -> (r: Result<
    ChainResponse,
    StdError,
>)
    ensures
        delayer_post(layered, r),
{
    match layered {
        SystemResult::SystemErr(se) => {
            let d = se.describe();
            let mut m = "Querier system error: ".to_owned();
            m.append(d.as_str());
            Err(StdError::GenericErr { msg: m })
        },
        SystemResult::Delivered(ContractResult::Rejected(cm)) => {
            let mut m = "Querier contract error: ".to_owned();
            m.append(cm.as_str());
            Err(StdError::GenericErr { msg: m })
        },
        SystemResult::Delivered(ContractResult::Accepted(value)) => Ok(
            ChainResponse { data: value },
        ),
    }
}

/// Exactly what the chain-forward query returns for each request: the
/// collaborator's answer, de-layered.
pub open spec fn chain_query_post(
    q: Querier,
    request: QueryRequest<SpecialQuery>,
    r: Result<ChainResponse, StdError>,
) -> bool {
    match request {
        QueryRequest::Bank(crate::querier::BankQuery::AllBalances { address }) => r matches Ok(c)
            && c.data matches QuerierAnswer::Balances(v) && v@ == spec_balances_of(
            q.balances@,
            address@,
        ),
        QueryRequest::Bank(crate::querier::BankQuery::Balance { address, denom }) => r matches Ok(c)
            && c.data matches QuerierAnswer::Balance(coin) && coin.denom@ == denom@ && coin.amount
            == spec_coin_amount(spec_balances_of(q.balances@, address@), denom@),
        QueryRequest::Custom(SpecialQuery::Ping {  }) => r matches Ok(c) && c.data matches QuerierAnswer::Special(
            s,
        ) && s.msg@ == "pong"@,
        QueryRequest::Custom(SpecialQuery::Capitalized { text }) => if is_ascii_chars(text@) {
            r matches Ok(c) && c.data matches QuerierAnswer::Special(s) && s.msg@ == upper_chars(
                text@,
            )
        } else {
            r matches Err(e) && e matches StdError::GenericErr { msg } && msg@
                == "Querier contract error: "@ + "expected ASCII text"@
        },
        QueryRequest::Wasm(crate::querier::WasmQuery::Raw { contract_addr, key }) => match spec_contract_store(
            q.raw_store@,
            contract_addr@,
        ) {
            Some(entries) => r matches Ok(c) && c.data matches QuerierAnswer::Raw(b) && b@
                == spec_raw_value(entries, key@),
            None => r matches Err(e) && e matches StdError::GenericErr { msg } && msg@
                == "Querier system error: "@ + ("no such contract: "@ + contract_addr@),
        },
        QueryRequest::Wasm(crate::querier::WasmQuery::Smart { contract_addr, .. }) => r matches Err(
            e,
        ) && e matches StdError::GenericErr { msg } && msg@ == "Querier system error: "@ + (
        "no such contract: "@ + contract_addr@),
    }
}

/// Chain-forward query: hands the request to the host collaborator and
/// de-layers the result.
pub fn query_chain(deps: &Deps, request: &QueryRequest<SpecialQuery>) -> (r: Result<
    ChainResponse,
    StdError,
>)
    ensures
        chain_query_post(deps.querier, *request, r),
{
    let layered = deps.querier.handle_query(request);
    delayer(layered)
}

/// Raw storage query: a missing key yields an empty byte result, not
/// an error.
pub fn query_raw(deps: &Deps, contract: HumanAddr, key: Binary) -> (r: Result<
    RawResponse,
    StdError,
>)
    ensures
        match spec_contract_store(deps.querier.raw_store@, contract@) {
            Some(entries) => r matches Ok(raw) && raw.data@ == spec_raw_value(entries, key@),
            None => r matches Err(e) && e matches StdError::GenericErr { msg } && msg@
                == "Querier system error: "@ + ("no such contract: "@ + contract@),
        },
{
    match deps.querier.query_wasm_raw(contract, key) {
        Ok(Some(bytes)) => Ok(RawResponse { data: Binary(bytes) }),
        Ok(None) => Ok(RawResponse { data: Binary::empty() }),
        Err(e) => Err(e),
    }
}

/// Exactly what the query entry point returns for each request shape.
pub open spec fn query_post(deps: Deps, msg: QueryMsg, r: Result<QueryResponse, StdError>) -> bool {
    match msg {
        QueryMsg::Owner {  } => match r {
            Ok(resp) => resp matches QueryResponse::Owner(o) && owner_query_post(deps, Ok(o)),
            Err(e) => owner_query_post(deps, Err(e)),
        },
        QueryMsg::Capitalized { text } => if is_ascii_chars(text@) {
            r matches Ok(resp) && resp matches QueryResponse::Capitalized(c) && c.text@
                == upper_chars(text@)
        } else {
            r matches Err(e) && e matches StdError::GenericErr { msg: m } && m@
                == "Querier contract error: "@ + "expected ASCII text"@
        },
        QueryMsg::Chain { request } => match r {
            Ok(resp) => resp matches QueryResponse::Chain(c) && chain_query_post(
                deps.querier,
                request,
                Ok(c),
            ),
            Err(e) => chain_query_post(deps.querier, request, Err(e)),
        },
        QueryMsg::Raw { contract, key } => match spec_contract_store(
            deps.querier.raw_store@,
            contract@,
        ) {
            Some(entries) => r matches Ok(resp) && resp matches QueryResponse::Raw(raw)
                && raw.data@ == spec_raw_value(entries, key@),
            None => r matches Err(e) && e matches StdError::GenericErr { msg: m } && m@
                == "Querier system error: "@ + ("no such contract: "@ + contract@),
        },
    }
}

/// Query: routes the four side-effect-free query shapes.
pub fn query(deps: &Deps, _env: Env, msg: QueryMsg) -> (r: Result<QueryResponse, StdError>)
    ensures
        query_post(*deps, msg, r),
{
    match msg {
        QueryMsg::Owner {  } => match query_owner(deps) {
            Ok(o) => Ok(QueryResponse::Owner(o)),
            Err(e) => Err(e),
        },
        QueryMsg::Capitalized { text } => match query_capitalized(deps, text) {
            Ok(c) => Ok(QueryResponse::Capitalized(c)),
            Err(e) => Err(e),
        },
        QueryMsg::Chain { request } => match query_chain(deps, &request) {
            Ok(c) => Ok(QueryResponse::Chain(c)),
            Err(e) => Err(e),
        },
        QueryMsg::Raw { contract, key } => match query_raw(deps, contract, key) {
            Ok(raw) => Ok(QueryResponse::Raw(raw)),
            Err(e) => Err(e),
        },
    }
}

/// Law: initializing as a valid caller and then asking for the owner
/// returns the caller's display identity.
pub proof fn lemma_init_then_owner_query(
    d0: Deps,
    d1: Deps,
    env: Env,
    info: MessageInfo,
    callback_id: Option<String>,
    r: Result<Response<CustomMsg>, StdError>,
    q: Result<OwnerResponse, StdError>,
)
    requires
        addr_valid(d0.api.canonical_length as nat, info.sender@),
        init_post(d0, d1, env, info, (InitMsg { callback_id }), r),
        owner_query_post(d1, q),
    ensures
        r is Ok,
        q matches Ok(o) && o.owner@ == info.sender@,
{
    lemma_canonical_round_trip(d0.api.canonical_length as nat, info.sender@);
}

/// Law: changing the owner as the current owner and then asking for
/// the owner returns the new owner's display identity.
pub proof fn lemma_change_owner_then_owner_query(
    d0: Deps,
    d1: Deps,
    info: MessageInfo,
    new_owner: HumanAddr,
    r: Result<Response<CustomMsg>, ReflectError>,
    q: Result<OwnerResponse, StdError>,
)
    requires
        addr_valid(d0.api.canonical_length as nat, info.sender@),
        addr_valid(d0.api.canonical_length as nat, new_owner@),
        d0.storage.config matches Some(st) && st.owner@ == canon_of(
            d0.api.canonical_length as nat,
            info.sender@,
        ),
        change_owner_post(d0, d1, info, new_owner, r),
        owner_query_post(d1, q),
    ensures
        r is Ok,
        q matches Ok(o) && o.owner@ == new_owner@,
{
    lemma_canonical_round_trip(d0.api.canonical_length as nat, new_owner@);
}

/// Law: once the owner has changed, a change-owner command from the
/// previous owner fails with the authorization error, naming both
/// identities, and writes nothing.
pub proof fn lemma_old_owner_locked_out(
    d1: Deps,
    d2: Deps,
    info: MessageInfo,
    next_owner: HumanAddr,
    new_owner: HumanAddr,
    r: Result<Response<CustomMsg>, ReflectError>,
)
    requires
        addr_valid(d1.api.canonical_length as nat, info.sender@),
        addr_valid(d1.api.canonical_length as nat, new_owner@),
        info.sender@ != new_owner@,
        d1.storage.config matches Some(st) && st.owner@ == canon_of(
            d1.api.canonical_length as nat,
            new_owner@,
        ),
        change_owner_post(d1, d2, info, next_owner, r),
    ensures
        r matches Err(e) && e matches ReflectError::NotCurrentOwner { expected, actual }
            && expected@ == canon_of(d1.api.canonical_length as nat, new_owner@) && actual@
            == canon_of(d1.api.canonical_length as nat, info.sender@),
        d2.storage == d1.storage,
{
    lemma_canon_injective(d1.api.canonical_length as nat, info.sender@, new_owner@);
}

/// The three layers a gateway result can come from.
pub open spec fn is_success(l: SystemResult<ContractResult<QuerierAnswer>>) -> bool {
    l matches SystemResult::Delivered(ContractResult::Accepted(_))
}

pub open spec fn is_logical_failure(l: SystemResult<ContractResult<QuerierAnswer>>) -> bool {
    l matches SystemResult::Delivered(ContractResult::Rejected(_))
}

pub open spec fn is_transport_failure(l: SystemResult<ContractResult<QuerierAnswer>>) -> bool {
    l is SystemErr
}

/// The two failure layers never render to the same message.
proof fn lemma_transport_logical_distinct(d1: Seq<char>, d2: Seq<char>)
    ensures
        "Querier system error: "@ + d1 != "Querier contract error: "@ + d2,
{
    reveal_strlit("Querier system error: ");
    reveal_strlit("Querier contract error: ");
    let a = "Querier system error: "@;
    let b = "Querier contract error: "@;
    assert(a[8] == 's');
    assert(b[8] == 'c');
    if a + d1 == b + d2 {
        assert((a + d1)[8] == (b + d2)[8]);
        assert(false);
    }
}

/// Law: de-layering keeps the three outcomes of a forwarded query
/// distinguishable. A delivered value comes back as a success, both
/// failure layers come back as errors, and a transport failure is
/// never mistaken for a logical one.
pub proof fn lemma_chain_outcomes_distinct(
    l1: SystemResult<ContractResult<QuerierAnswer>>,
    r1: Result<ChainResponse, StdError>,
    l2: SystemResult<ContractResult<QuerierAnswer>>,
    r2: Result<ChainResponse, StdError>,
)
    requires
        delayer_post(l1, r1),
        delayer_post(l2, r2),
    ensures
        is_success(l1) <==> r1 is Ok,
        is_transport_failure(l1) && is_logical_failure(l2) ==> r1 != r2,
{
    if is_transport_failure(l1) && is_logical_failure(l2) {
        match (l1, l2) {
            (SystemResult::SystemErr(se), SystemResult::Delivered(ContractResult::Rejected(cm))) => {
                lemma_transport_logical_distinct(spec_describe(se), cm@);
            },
            _ => {},
        }
    }
}

/// Law: the owner query is idempotent. Without an intervening handle
/// call, two owner queries against the same state agree, success or
/// failure alike.
pub proof fn lemma_owner_query_idempotent(
    deps: Deps,
    r1: Result<OwnerResponse, StdError>,
    r2: Result<OwnerResponse, StdError>,
)
    requires
        owner_query_post(deps, r1),
        owner_query_post(deps, r2),
    ensures
        r1 is Ok <==> r2 is Ok,
        match (r1, r2) {
            (Ok(a), Ok(b)) => a.owner@ == b.owner@,
            (Err(e1), Err(e2)) => (e1 is GenericErr <==> e2 is GenericErr) && err_text(e1)
                == err_text(e2),
            _ => true,
        },
{
    match deps.storage.config {
        None => {},
        Some(st) => {
            if st.owner@.len() != deps.api.canonical_length as nat {
            } else if valid_utf8(strip_zeros(st.owner@)) {
            } else {
            }
        },
    }
}

} // verus!
