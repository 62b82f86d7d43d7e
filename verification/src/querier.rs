//! The query side: structured requests, the two-level layered result
//! (transport outcome around logical outcome), and the testing
//! collaborator that answers requests from in-memory tables.

use vstd::prelude::*;
use vstd::string::*;
use vstd::utf8::is_ascii_chars;
use crate::errors::StdError;
use crate::text::{to_uppercase_ascii, upper_chars};
use crate::types::{bytes_eq, Binary, Coin, HumanAddr};

verus! {

/// Native bank queries.
#[derive(Clone, Debug, PartialEq, Eq)]
pub enum BankQuery {
    Balance { address: HumanAddr, denom: String },
    AllBalances { address: HumanAddr },
}

/// Queries against another unit's storage or entry points.
#[derive(Clone, Debug, PartialEq, Eq)]
pub enum WasmQuery {
    Smart { contract_addr: HumanAddr, msg: Binary },
    Raw { contract_addr: HumanAddr, key: Binary },
}

/// The custom-query extension point understood by this unit's
/// collaborator.
#[derive(Clone, Debug, PartialEq, Eq)]
pub enum SpecialQuery {
    Ping {},
    Capitalized { text: String },
}

/// The custom-query collaborator's reply.
#[derive(Clone, Debug, PartialEq, Eq)]
pub struct SpecialResponse {
    pub msg: String,
}

/// A structured query, native or custom.
#[derive(Clone, Debug, PartialEq, Eq)]
pub enum QueryRequest<C> {
    Bank(BankQuery),
    Custom(C),
    Wasm(WasmQuery),
}

/// Transport-layer failures: the request never reached a collaborator
/// that could answer it.
#[derive(Clone, Debug, PartialEq, Eq)]
pub enum SystemError {
    NoSuchContract { addr: HumanAddr },
    UnsupportedRequest { kind: String },
}

/// The textual rendering of a transport failure.
pub open spec fn spec_describe(e: SystemError) -> Seq<char> {
    match e {
        SystemError::NoSuchContract { addr } => "no such contract: "@ + addr@,
        SystemError::UnsupportedRequest { kind } => "unsupported request: "@ + kind@,
    }
}

impl SystemError {
    /// A textual rendering for error messages.
    pub fn describe(&self) -> (r: String)
        ensures
            r@ == spec_describe(*self),
    {
        match self {
            SystemError::NoSuchContract { addr } => {
                let mut m = "no such contract: ".to_owned();
                m.append(addr.0.as_str());
                m
            },
            SystemError::UnsupportedRequest { kind } => {
                let mut m = "unsupported request: ".to_owned();
                m.append(kind.as_str());
                m
            },
        }
    }
}

/// The outer, transport layer of a query result.
#[derive(Clone, Debug, PartialEq, Eq)]
pub enum SystemResult<S> {
    Delivered(S),
    SystemErr(SystemError),
}

/// The inner, logical layer: the collaborator was reached and either
/// answered or explicitly rejected the request.
#[derive(Clone, Debug, PartialEq, Eq)]
pub enum ContractResult<S> {
    Accepted(S),
    Rejected(String),
}

/// A collaborator's structured answer.
#[derive(Clone, Debug, PartialEq, Eq)]
pub enum QuerierAnswer {
    Balances(Vec<Coin>),
    Balance(Coin),
    Special(SpecialResponse),
    Raw(Binary),
}

/// The balances recorded for an address; empty when the address is
/// unknown. The first matching entry wins.
pub open spec fn spec_balances_of(table: Seq<(HumanAddr, Vec<Coin>)>, addr: Seq<char>) -> Seq<Coin>
    decreases table.len(),
{
    if table.len() == 0 {
        Seq::empty()
    } else if table[0].0@ == addr {
        table[0].1@
    } else {
        spec_balances_of(table.drop_first(), addr)
    }
}

/// The amount held in one denomination; zero when absent.
pub open spec fn spec_coin_amount(coins: Seq<Coin>, denom: Seq<char>) -> u128
    decreases coins.len(),
{
    if coins.len() == 0 {
        0
    } else if coins[0].denom@ == denom {
        coins[0].amount
    } else {
        spec_coin_amount(coins.drop_first(), denom)
    }
}

/// The raw storage of a unit, or None when the unit is unknown.
pub open spec fn spec_contract_store(
    table: Seq<(HumanAddr, Vec<(Binary, Binary)>)>,
    addr: Seq<char>,
) -> Option<Seq<(Binary, Binary)>>
    decreases table.len(),
{
    if table.len() == 0 {
        None
    } else if table[0].0@ == addr {
        Some(table[0].1@)
    } else {
        spec_contract_store(table.drop_first(), addr)
    }
}

/// The bytes stored under a key; empty when the key is absent. A
/// missing key is valid data, not a failure.
pub open spec fn spec_raw_value(entries: Seq<(Binary, Binary)>, key: Seq<u8>) -> Seq<u8>
    decreases entries.len(),
{
    if entries.len() == 0 {
        Seq::empty()
    } else if entries[0].0@ == key {
        entries[0].1@
    } else {
        spec_raw_value(entries.drop_first(), key)
    }
}

/// The testing collaborator behind the query gateway: answers bank
/// queries from a balance table, custom queries with the fixed ping
/// reply and the uppercase transform, and raw queries from a
/// per-unit key-value table.
#[derive(Clone, Debug, PartialEq, Eq)]
pub struct Querier {
    pub balances: Vec<(HumanAddr, Vec<Coin>)>,
    pub raw_store: Vec<(HumanAddr, Vec<(Binary, Binary)>)>,
}

/// Exactly what the testing collaborator answers to each request.
pub open spec fn handle_query_post(
    q: Querier,
    request: QueryRequest<SpecialQuery>,
    r: SystemResult<ContractResult<QuerierAnswer>>,
) -> bool {
    match request {
        QueryRequest::Bank(BankQuery::AllBalances { address }) => r matches SystemResult::Delivered(
            ContractResult::Accepted(QuerierAnswer::Balances(v)),
        ) && v@ == spec_balances_of(q.balances@, address@),
        QueryRequest::Bank(BankQuery::Balance { address, denom }) => r matches SystemResult::Delivered(
            ContractResult::Accepted(QuerierAnswer::Balance(c)),
        ) && c.denom@ == denom@ && c.amount == spec_coin_amount(
            spec_balances_of(q.balances@, address@),
            denom@,
        ),
        QueryRequest::Custom(SpecialQuery::Ping {  }) => r matches SystemResult::Delivered(
            ContractResult::Accepted(QuerierAnswer::Special(s)),
        ) && s.msg@ == "pong"@,
        QueryRequest::Custom(SpecialQuery::Capitalized { text }) => if is_ascii_chars(text@) {
            r matches SystemResult::Delivered(
                ContractResult::Accepted(QuerierAnswer::Special(s)),
            ) && s.msg@ == upper_chars(text@)
        } else {
            r matches SystemResult::Delivered(ContractResult::Rejected(m)) && m@
                == "expected ASCII text"@
        },
        QueryRequest::Wasm(WasmQuery::Raw { contract_addr, key }) => match spec_contract_store(
            q.raw_store@,
            contract_addr@,
        ) {
            Some(entries) => r matches SystemResult::Delivered(
                ContractResult::Accepted(QuerierAnswer::Raw(b)),
            ) && b@ == spec_raw_value(entries, key@),
            None => r matches SystemResult::SystemErr(
                SystemError::NoSuchContract { addr },
            ) && addr@ == contract_addr@,
        },
        QueryRequest::Wasm(WasmQuery::Smart { contract_addr, .. }) => r matches SystemResult::SystemErr(
            SystemError::NoSuchContract { addr },
        ) && addr@ == contract_addr@,
    }
}

impl Querier {
    /// Answers one structured request with a layered result.
    pub fn handle_query(&self, request: &QueryRequest<SpecialQuery>) -> (r: SystemResult<
        ContractResult<QuerierAnswer>,
    >)
        ensures
            handle_query_post(*self, *request, r),
    {
        match request {
            QueryRequest::Bank(BankQuery::AllBalances { address }) => {
                let v = self.balances_of(address);
                SystemResult::Delivered(ContractResult::Accepted(QuerierAnswer::Balances(v)))
            },
            QueryRequest::Bank(BankQuery::Balance { address, denom }) => {
                let v = self.balances_of(address);
                let amount = coin_amount(&v, denom);
                let c = Coin { denom: denom.clone(), amount };
                SystemResult::Delivered(ContractResult::Accepted(QuerierAnswer::Balance(c)))
            },
            QueryRequest::Custom(SpecialQuery::Ping {  }) => {
                let s = SpecialResponse { msg: "pong".to_owned() };
                SystemResult::Delivered(ContractResult::Accepted(QuerierAnswer::Special(s)))
            },
            QueryRequest::Custom(SpecialQuery::Capitalized { text }) => {
                if text.is_ascii() {
                    let s = SpecialResponse { msg: to_uppercase_ascii(text.as_str()) };
                    SystemResult::Delivered(ContractResult::Accepted(QuerierAnswer::Special(s)))
                } else {
                    SystemResult::Delivered(
                        ContractResult::Rejected("expected ASCII text".to_owned()),
                    )
                }
            },
            QueryRequest::Wasm(WasmQuery::Raw { contract_addr, key }) => {
                match self.raw_store_of(contract_addr) {
                    Some(i) => {
                        let b = raw_value(&self.raw_store[i].1, key);
                        SystemResult::Delivered(
                            ContractResult::Accepted(QuerierAnswer::Raw(Binary(b))),
                        )
                    },
                    None => SystemResult::SystemErr(
                        SystemError::NoSuchContract { addr: HumanAddr(contract_addr.0.clone()) },
                    ),
                }
            },
            QueryRequest::Wasm(WasmQuery::Smart { contract_addr, .. }) => SystemResult::SystemErr(
                SystemError::NoSuchContract { addr: HumanAddr(contract_addr.0.clone()) },
            ),
        }
    }

    /// Looks an address up in the balance table.
    fn balances_of(&self, address: &HumanAddr) -> (v: Vec<Coin>)
        ensures
            v@ == spec_balances_of(self.balances@, address@),
    {
        let mut i: usize = 0;
        proof {
            assert(self.balances@.skip(0) =~= self.balances@);
        }
        while i < self.balances.len()
            invariant
                i <= self.balances.len(),
                spec_balances_of(self.balances@, address@) == spec_balances_of(
                    self.balances@.skip(i as int),
                    address@,
                ),
            decreases self.balances.len() - i,
        {
            proof {
                assert(self.balances@.skip(i as int)[0] == self.balances@[i as int]);
                assert(self.balances@.skip(i as int).drop_first() =~= self.balances@.skip(
                    i as int + 1,
                ));
            }
            if self.balances[i].0.0 == address.0 {
                return clone_coins(&self.balances[i].1);
            }
            i += 1;
        }
        proof {
            assert(self.balances@.skip(i as int) =~= Seq::empty());
        }
        Vec::new()
    }

    /// Finds the index of a unit's raw storage table, if the unit is
    /// known.
    fn raw_store_of(&self, address: &HumanAddr) -> (r: Option<usize>)
        ensures
            match r {
                Some(i) => i < self.raw_store@.len() && spec_contract_store(
                    self.raw_store@,
                    address@,
                ) == Some(self.raw_store@[i as int].1@),
                None => spec_contract_store(self.raw_store@, address@) is None,
            },
    {
        let mut i: usize = 0;
        proof {
            assert(self.raw_store@.skip(0) =~= self.raw_store@);
        }
        while i < self.raw_store.len()
            invariant
                i <= self.raw_store.len(),
                spec_contract_store(self.raw_store@, address@) == spec_contract_store(
                    self.raw_store@.skip(i as int),
                    address@,
                ),
            decreases self.raw_store.len() - i,
        {
            proof {
                assert(self.raw_store@.skip(i as int)[0] == self.raw_store@[i as int]);
                assert(self.raw_store@.skip(i as int).drop_first() =~= self.raw_store@.skip(
                    i as int + 1,
                ));
            }
            if self.raw_store[i].0.0 == address.0 {
                proof {
                    assert(spec_contract_store(self.raw_store@.skip(i as int), address@) == Some(
                        self.raw_store@[i as int].1@,
                    ));
                }
                return Some(i);
            }
            i += 1;
        }
        proof {
            assert(self.raw_store@.skip(i as int) =~= Seq::empty());
        }
        None
    }
}

/// The amount of one denomination in a coin list; zero when absent.
fn coin_amount(coins: &Vec<Coin>, denom: &String) -> (amount: u128)
    ensures
        amount == spec_coin_amount(coins@, denom@),
{
    let mut i: usize = 0;
    proof {
        assert(coins@.skip(0) =~= coins@);
    }
    while i < coins.len()
        invariant
            i <= coins.len(),
            spec_coin_amount(coins@, denom@) == spec_coin_amount(coins@.skip(i as int), denom@),
        decreases coins.len() - i,
    {
        proof {
            assert(coins@.skip(i as int)[0] == coins@[i as int]);
            assert(coins@.skip(i as int).drop_first() =~= coins@.skip(i as int + 1));
        }
        if coins[i].denom == *denom {
            return coins[i].amount;
        }
        i += 1;
    }
    proof {
        assert(coins@.skip(i as int) =~= Seq::empty());
    }
    0
}

/// The value stored under a key; empty bytes when the key is absent.
fn raw_value(entries: &Vec<(Binary, Binary)>, key: &Binary) -> (v: Vec<u8>)
    ensures
        v@ == spec_raw_value(entries@, key@),
{
    let mut i: usize = 0;
    proof {
        assert(entries@.skip(0) =~= entries@);
    }
    while i < entries.len()
        invariant
            i <= entries.len(),
            spec_raw_value(entries@, key@) == spec_raw_value(entries@.skip(i as int), key@),
        decreases entries.len() - i,
    {
        proof {
            assert(entries@.skip(i as int)[0] == entries@[i as int]);
            assert(entries@.skip(i as int).drop_first() =~= entries@.skip(i as int + 1));
        }
        if bytes_eq(&entries[i].0.0, &key.0) {
            return clone_bytes(&entries[i].1.0);
        }
        i += 1;
    }
    proof {
        assert(entries@.skip(i as int) =~= Seq::empty());
    }
    Vec::new()
}

/// An element-wise copy of a byte vector.
pub fn clone_bytes(v: &Vec<u8>) -> (r: Vec<u8>)
    ensures
        r@ == v@,
{
    let mut r: Vec<u8> = Vec::new();
    let mut i: usize = 0;
    while i < v.len()
        invariant
            i <= v.len(),
            r@ =~= v@.subrange(0, i as int),
        decreases v.len() - i,
    {
        r.push(v[i]);
        i += 1;
    }
    proof {
        assert(r@ =~= v@);
    }
    r
}

/// A field-wise copy of a coin list.
pub fn clone_coins(v: &Vec<Coin>) -> (r: Vec<Coin>)
    ensures
        r@ == v@,
{
    let mut r: Vec<Coin> = Vec::new();
    let mut i: usize = 0;
    while i < v.len()
        invariant
            i <= v.len(),
            r@ =~= v@.subrange(0, i as int),
        decreases v.len() - i,
    {
        let c = Coin { denom: v[i].denom.clone(), amount: v[i].amount };
        proof {
            assert(c == v@[i as int]);
        }
        r.push(c);
        i += 1;
    }
    proof {
        assert(r@ =~= v@);
    }
    r
}

/// Exactly what the custom-query helper returns for each custom query.
pub open spec fn custom_query_post(
    q: Querier,
    query: SpecialQuery,
    r: Result<SpecialResponse, StdError>,
) -> bool {
    match query {
        SpecialQuery::Ping {  } => r matches Ok(s) && s.msg@ == "pong"@,
        SpecialQuery::Capitalized { text } => if is_ascii_chars(text@) {
            r matches Ok(s) && s.msg@ == upper_chars(text@)
        } else {
            r matches Err(e) && e matches StdError::GenericErr { msg } && msg@
                == "Querier contract error: "@ + "expected ASCII text"@
        },
    }
}

/// Exactly what the raw-storage helper returns: the stored bytes, None
/// for a missing key or empty value, and a transport error only for an
/// unknown unit.
pub open spec fn raw_query_post(
    q: Querier,
    contract: HumanAddr,
    key: Binary,
    r: Result<Option<Vec<u8>>, StdError>,
) -> bool {
    match spec_contract_store(q.raw_store@, contract@) {
        Some(entries) => {
            let v = spec_raw_value(entries, key@);
            if v.len() == 0 {
                r matches Ok(o) && o is None
            } else {
                r matches Ok(o) && o matches Some(bytes) && bytes@ == v
            }
        },
        None => r matches Err(e) && e matches StdError::GenericErr { msg } && msg@
            == "Querier system error: "@ + ("no such contract: "@ + contract@),
    }
}

impl Querier {
    /// Sends one custom query and unwraps the two result layers into a
    /// single generic error or the collaborator's reply.
    pub fn custom_query(&self, query: SpecialQuery) -> (r: Result<SpecialResponse, StdError>)
        ensures
            custom_query_post(*self, query, r),
    {
        let request: QueryRequest<SpecialQuery> = QueryRequest::Custom(query);
        match self.handle_query(&request) {
            SystemResult::SystemErr(e) => {
                let d = e.describe();
                let mut m = "Querier system error: ".to_owned();
                m.append(d.as_str());
                Err(StdError::GenericErr { msg: m })
            },
            SystemResult::Delivered(ContractResult::Rejected(cm)) => {
                let mut m = "Querier contract error: ".to_owned();
                m.append(cm.as_str());
                Err(StdError::GenericErr { msg: m })
            },
            SystemResult::Delivered(ContractResult::Accepted(QuerierAnswer::Special(s))) => Ok(s),
            SystemResult::Delivered(ContractResult::Accepted(_)) => Err(
                StdError::generic_err("unexpected querier answer"),
            ),
        }
    }

    /// Reads raw bytes from another unit's storage. A missing key is
    /// reported as None, never as an error.
    pub fn query_wasm_raw(&self, contract: HumanAddr, key: Binary) -> (r: Result<
        Option<Vec<u8>>,
        StdError,
    >)
        ensures
            raw_query_post(*self, contract, key, r),
    {
        let request: QueryRequest<SpecialQuery> = QueryRequest::Wasm(
            WasmQuery::Raw { contract_addr: contract, key },
        );
        match self.handle_query(&request) {
            SystemResult::SystemErr(e) => {
                let d = e.describe();
                let mut m = "Querier system error: ".to_owned();
                m.append(d.as_str());
                Err(StdError::GenericErr { msg: m })
            },
            SystemResult::Delivered(ContractResult::Rejected(cm)) => {
                let mut m = "Querier contract error: ".to_owned();
                m.append(cm.as_str());
                Err(StdError::GenericErr { msg: m })
            },
            SystemResult::Delivered(ContractResult::Accepted(QuerierAnswer::Raw(b))) => {
                if b.is_empty() {
                    Ok(None)
                } else {
                    Ok(Some(b.0))
                }
            },
            SystemResult::Delivered(ContractResult::Accepted(_)) => Err(
                StdError::generic_err("unexpected querier answer"),
            ),
        }
    }
}

} // verus!
