//! The ledger simulator of `cw-multi-test`, as far as the runner drives it.
//!
//! The simulator is a black box: its state is opaque here, and what it
//! answers depends on that state. The functions of this module hand plain
//! values in and take plain values back; nothing is claimed of the answers.

use crate::message::{amount_of, Coin, CoinView};
use crate::response::{Event, SubResult};
use cosmwasm_std::{
    coin, to_json_vec, Addr, BankMsg, Binary, ContractResult, CosmosMsg, Empty, Querier,
    QueryRequest, StakingMsg, SystemResult, WasmMsg,
};
use cosmwasm_std::testing::MockApi;
use cw_multi_test::{no_init, App, AppBuilder, AppResponse, BankSudo, SudoMsg};
use cosmrs::crypto::secp256k1::SigningKey;
use vstd::prelude::*;

verus! {

/// The simulator: an opaque value that the runner owns.
#[verifier::external_type_specification]
#[verifier::external_body]
#[verifier::reject_recursive_types(Bank)]
#[verifier::reject_recursive_types(Api)]
#[verifier::reject_recursive_types(Storage)]
#[verifier::reject_recursive_types(Custom)]
#[verifier::reject_recursive_types(Wasm)]
#[verifier::reject_recursive_types(Staking)]
#[verifier::reject_recursive_types(Distr)]
#[verifier::reject_recursive_types(Ibc)]
#[verifier::reject_recursive_types(Gov)]
#[verifier::reject_recursive_types(Stargate)]
pub struct ExApp<Bank, Api, Storage, Custom, Wasm, Staking, Distr, Ibc, Gov, Stargate>(
    cw_multi_test::App<Bank, Api, Storage, Custom, Wasm, Staking, Distr, Ibc, Gov, Stargate>,
);

/// The simulator's bank module.
#[verifier::external_type_specification]
#[verifier::external_body]
pub struct ExBankKeeper(cw_multi_test::BankKeeper);

/// The simulator's staking module.
#[verifier::external_type_specification]
#[verifier::external_body]
pub struct ExStakeKeeper(cw_multi_test::StakeKeeper);

/// The simulator's distribution module.
#[verifier::external_type_specification]
#[verifier::external_body]
pub struct ExDistributionKeeper(cw_multi_test::DistributionKeeper);

/// The simulator's handler for messages that no module of it takes.
#[verifier::external_type_specification]
#[verifier::external_body]
pub struct ExStargateFailing(cw_multi_test::StargateFailing);

/// The simulator's contract module.
#[verifier::external_type_specification]
#[verifier::external_body]
#[verifier::reject_recursive_types(ExecC)]
#[verifier::reject_recursive_types(QueryC)]
pub struct ExWasmKeeper<ExecC, QueryC>(cw_multi_test::WasmKeeper<ExecC, QueryC>);

/// A simulator module that refuses every call.
#[verifier::external_type_specification]
#[verifier::external_body]
#[verifier::reject_recursive_types(ExecT)]
#[verifier::reject_recursive_types(QueryT)]
#[verifier::reject_recursive_types(SudoT)]
pub struct ExFailingModule<ExecT, QueryT, SudoT>(cw_multi_test::FailingModule<ExecT, QueryT, SudoT>);

/// The simulator's address codec.
#[verifier::external_type_specification]
#[verifier::external_body]
pub struct ExMockApi(cosmwasm_std::testing::MockApi);

/// The simulator's key-value store.
#[verifier::external_type_specification]
#[verifier::external_body]
pub struct ExMemoryStorage(cosmwasm_std::MemoryStorage);

/// The message type of a chain without custom messages.
#[verifier::external_type_specification]
#[verifier::external_body]
pub struct ExEmpty(cosmwasm_std::Empty);

/// A message to the inter-chain module.
#[verifier::external_type_specification]
#[verifier::external_body]
pub struct ExIbcMsg(cosmwasm_std::IbcMsg);

/// A query to the inter-chain module.
#[verifier::external_type_specification]
#[verifier::external_body]
pub struct ExIbcQuery(cosmwasm_std::IbcQuery);

/// A message to the governance module.
#[verifier::external_type_specification]
#[verifier::external_body]
pub struct ExGovMsg(cosmwasm_std::GovMsg);

/// A message in the form in which the simulator takes it.
#[verifier::external_type_specification]
#[verifier::external_body]
#[verifier::reject_recursive_types(T)]
pub struct ExCosmosMsg<T>(cosmwasm_std::CosmosMsg<T>);

/// What the simulator reports for one message.
#[verifier::external_type_specification]
#[verifier::external_body]
pub struct ExAppResponse(cw_multi_test::AppResponse);

/// A secp256k1 signing key.
#[verifier::external_type_specification]
#[verifier::external_body]
pub struct ExSigningKey(cosmrs::crypto::secp256k1::SigningKey);

/// The coins of the denomination `denom` that the accounts of the
/// simulator's bank hold, counted together.
pub uninterp spec fn supply_of(app: App, denom: Seq<char>) -> nat;

/// Whether the simulator's staking module knows no validator. Without one
/// nothing can be delegated, so no reward is ever paid out.
pub uninterp spec fn without_validators(app: App) -> bool;

/// Calls `AppBuilder::build` of `cw-multi-test` on a builder whose address
/// codec is `MockApi` with the given prefix: a simulator in its initial
/// state, in which no account holds a coin and there is no validator.
#[verifier::external_body]
pub(crate) fn fresh_simulator(address_prefix: &'static str) -> (app: App)
    ensures
        forall|denom: Seq<char>| #[trigger] supply_of(app, denom) == 0,
        without_validators(app),
{
    AppBuilder::new().with_api(MockApi::default().with_prefix(address_prefix)).build(no_init)
}

/// The `CosmosMsg::Wasm(WasmMsg::Execute { .. })` with the given contract
/// address, message body and funds.
pub uninterp spec fn execute_message(
    contract_addr: Seq<char>,
    msg: Seq<u8>,
    funds: Seq<CoinView>,
) -> CosmosMsg;

/// Builds `CosmosMsg::Wasm(WasmMsg::Execute { .. })` of `cosmwasm-std` from
/// the given fields. The contract claims only that the message is a function
/// of the fields' values, and names it.
#[verifier::external_body]
pub(crate) fn wasm_execute(contract_addr: &String, msg: &Vec<u8>, funds: &Vec<Coin>) -> (m:
    CosmosMsg)
    ensures
        m == execute_message(contract_addr@, msg@, funds.deep_view()),
{
    CosmosMsg::Wasm(
        WasmMsg::Execute {
            contract_addr: contract_addr.clone(),
            msg: Binary::new(msg.clone()),
            funds: funds.iter().map(|c| coin(c.amount, c.denom.clone())).collect(),
        },
    )
}

/// The `CosmosMsg::Wasm(WasmMsg::Instantiate { .. })` with the given code
/// id, admin, message body, funds and label.
pub uninterp spec fn instantiate_message(
    code_id: u64,
    admin: Option<Seq<char>>,
    msg: Seq<u8>,
    funds: Seq<CoinView>,
    label: Seq<char>,
) -> CosmosMsg;

/// Builds `CosmosMsg::Wasm(WasmMsg::Instantiate { .. })` of `cosmwasm-std`
/// from the given fields. The contract claims only that the message is a
/// function of the fields' values, and names it.
#[verifier::external_body]
pub(crate) fn wasm_instantiate(
    code_id: u64,
    admin: &Option<String>,
    msg: &Vec<u8>,
    funds: &Vec<Coin>,
    label: &String,
) -> (m: CosmosMsg)
    ensures
        m == instantiate_message(code_id, admin.deep_view(), msg@, funds.deep_view(), label@),
{
    CosmosMsg::Wasm(
        WasmMsg::Instantiate {
            admin: admin.clone(),
            code_id,
            msg: Binary::new(msg.clone()),
            funds: funds.iter().map(|c| coin(c.amount, c.denom.clone())).collect(),
            label: label.clone(),
        },
    )
}

/// The `CosmosMsg::Wasm(WasmMsg::Migrate { .. })` with the given contract
/// address, code id and message body.
pub uninterp spec fn migrate_message(
    contract_addr: Seq<char>,
    new_code_id: u64,
    msg: Seq<u8>,
) -> CosmosMsg;

/// Builds `CosmosMsg::Wasm(WasmMsg::Migrate { .. })` of `cosmwasm-std` from
/// the given fields. The contract claims only that the message is a function
/// of the fields' values, and names it.
#[verifier::external_body]
pub(crate) fn wasm_migrate(contract_addr: &String, new_code_id: u64, msg: &Vec<u8>) -> (m:
    CosmosMsg)
    ensures
        m == migrate_message(contract_addr@, new_code_id, msg@),
{
    CosmosMsg::Wasm(
        WasmMsg::Migrate {
            contract_addr: contract_addr.clone(),
            new_code_id,
            msg: Binary::new(msg.clone()),
        },
    )
}

/// The `CosmosMsg::Wasm(WasmMsg::UpdateAdmin { .. })` with the given
/// contract address and admin.
pub uninterp spec fn update_admin_message(contract_addr: Seq<char>, admin: Seq<char>) -> CosmosMsg;

/// Builds `CosmosMsg::Wasm(WasmMsg::UpdateAdmin { .. })` of `cosmwasm-std`
/// from the given fields. The contract claims only that the message is a
/// function of the fields' values, and names it.
#[verifier::external_body]
pub(crate) fn wasm_update_admin(contract_addr: &String, admin: &String) -> (m: CosmosMsg)
    ensures
        m == update_admin_message(contract_addr@, admin@),
{
    CosmosMsg::Wasm(
        WasmMsg::UpdateAdmin { contract_addr: contract_addr.clone(), admin: admin.clone() },
    )
}

/// The `CosmosMsg::Wasm(WasmMsg::ClearAdmin { .. })` with the given contract
/// address.
pub uninterp spec fn clear_admin_message(contract_addr: Seq<char>) -> CosmosMsg;

/// Builds `CosmosMsg::Wasm(WasmMsg::ClearAdmin { .. })` of `cosmwasm-std`
/// from the given field. The contract claims only that the message is a
/// function of the field's value, and names it.
#[verifier::external_body]
pub(crate) fn wasm_clear_admin(contract_addr: &String) -> (m: CosmosMsg)
    ensures
        m == clear_admin_message(contract_addr@),
{
    CosmosMsg::Wasm(WasmMsg::ClearAdmin { contract_addr: contract_addr.clone() })
}

/// The `CosmosMsg::Bank(BankMsg::Send { .. })` with the given recipient and
/// amount.
pub uninterp spec fn send_message(to_address: Seq<char>, amount: Seq<CoinView>) -> CosmosMsg;

/// Builds `CosmosMsg::Bank(BankMsg::Send { .. })` of `cosmwasm-std` from the
/// given fields. The contract claims only that the message is a function of
/// the fields' values, and names it.
#[verifier::external_body]
pub(crate) fn bank_send(to_address: &String, amount: &Vec<Coin>) -> (m: CosmosMsg)
    ensures
        m == send_message(to_address@, amount.deep_view()),
{
    CosmosMsg::Bank(
        BankMsg::Send {
            to_address: to_address.clone(),
            amount: amount.iter().map(|c| coin(c.amount, c.denom.clone())).collect(),
        },
    )
}

/// The `CosmosMsg::Staking(StakingMsg::Delegate { .. })` with the given
/// validator and amount.
pub uninterp spec fn delegate_message(validator: Seq<char>, amount: CoinView) -> CosmosMsg;

/// Builds `CosmosMsg::Staking(StakingMsg::Delegate { .. })` of
/// `cosmwasm-std` from the given fields. The contract claims only that the
/// message is a function of the fields' values, and names it.
#[verifier::external_body]
pub(crate) fn staking_delegate(validator: &String, amount: &Coin) -> (m: CosmosMsg)
    ensures
        m == delegate_message(validator@, amount.deep_view()),
{
    CosmosMsg::Staking(
        StakingMsg::Delegate {
            validator: validator.clone(),
            amount: coin(amount.amount, amount.denom.clone()),
        },
    )
}

/// The `CosmosMsg::Staking(StakingMsg::Undelegate { .. })` with the given
/// validator and amount.
pub uninterp spec fn undelegate_message(validator: Seq<char>, amount: CoinView) -> CosmosMsg;

/// Builds `CosmosMsg::Staking(StakingMsg::Undelegate { .. })` of
/// `cosmwasm-std` from the given fields. The contract claims only that the
/// message is a function of the fields' values, and names it.
#[verifier::external_body]
pub(crate) fn staking_undelegate(validator: &String, amount: &Coin) -> (m: CosmosMsg)
    ensures
        m == undelegate_message(validator@, amount.deep_view()),
{
    CosmosMsg::Staking(
        StakingMsg::Undelegate {
            validator: validator.clone(),
            amount: coin(amount.amount, amount.denom.clone()),
        },
    )
}

/// The `CosmosMsg::Staking(StakingMsg::Redelegate { .. })` with the given
/// validators and amount.
pub uninterp spec fn redelegate_message(
    src_validator: Seq<char>,
    dst_validator: Seq<char>,
    amount: CoinView,
) -> CosmosMsg;

/// Builds `CosmosMsg::Staking(StakingMsg::Redelegate { .. })` of
/// `cosmwasm-std` from the given fields. The contract claims only that the
/// message is a function of the fields' values, and names it.
#[verifier::external_body]
pub(crate) fn staking_redelegate(
    src_validator: &String,
    dst_validator: &String,
    amount: &Coin,
) -> (m: CosmosMsg)
    ensures
        m == redelegate_message(src_validator@, dst_validator@, amount.deep_view()),
{
    CosmosMsg::Staking(
        StakingMsg::Redelegate {
            src_validator: src_validator.clone(),
            dst_validator: dst_validator.clone(),
            amount: coin(amount.amount, amount.denom.clone()),
        },
    )
}

/// The `CosmosMsg::Stargate { .. }` with the given tag and payload.
pub uninterp spec fn stargate_message(type_url: Seq<char>, value: Seq<u8>) -> CosmosMsg;

/// Builds `CosmosMsg::Stargate { .. }` of `cosmwasm-std` from the given tag
/// and payload. The contract claims only that the message is a function of
/// their values, and names it.
#[verifier::external_body]
#[allow(deprecated)]
pub(crate) fn stargate(type_url: &String, value: &Vec<u8>) -> (m: CosmosMsg)
    ensures
        m == stargate_message(type_url@, value@),
{
    CosmosMsg::Stargate { type_url: type_url.clone(), value: Binary::new(value.clone()) }
}

/// Calls `App::execute_multi` of `cw-multi-test` with `sender` as the
/// signer. An error is handed back as its text. The bank adds amounts
/// without a check, so the coins held of each denomination must fit in 128
/// bits; and only rewards of delegations create coins, so there must be no
/// validator. What the simulator answers depends on its state; the contract
/// claims what holds of every answer: an accepted batch has one response for
/// each message; a batch without messages is always accepted and changes
/// nothing; a refused batch changes nothing; no batch adds a validator or
/// creates coins.
#[verifier::external_body]
pub(crate) fn simulator_execute(app: &mut App, sender: &String, msgs: Vec<CosmosMsg>) -> (r: Result<
    Vec<AppResponse>,
    String,
>)
    requires
        without_validators(*old(app)),
        forall|denom: Seq<char>| #[trigger] supply_of(*old(app), denom) <= u128::MAX,
    ensures
        r matches Ok(responses) ==> responses@.len() == msgs@.len(),
        msgs@.len() == 0 ==> r is Ok && *final(app) == *old(app),
        r is Err ==> *final(app) == *old(app),
        without_validators(*final(app)),
        forall|denom: Seq<char>| #[trigger]
            supply_of(*final(app), denom) <= supply_of(*old(app), denom),
{
    match app.execute_multi(Addr::unchecked(sender.clone()), msgs) {
        Ok(responses) => Ok(responses),
        Err(e) => Err(e.to_string()),
    }
}

/// Reads the public fields `events` and `data` of an `AppResponse` of
/// `cw-multi-test` into plain values.
#[verifier::external_body]
pub(crate) fn sub_result(response: &AppResponse) -> (r: SubResult) {
    SubResult {
        events: response.events.iter().map(
            |e|
                Event {
                    ty: e.ty.clone(),
                    attributes: e.attributes.iter().map(
                        |a| (a.key.clone(), a.value.clone()),
                    ).collect(),
                },
        ).collect(),
        data: response.data.as_ref().map(|d| d.to_vec()),
    }
}

/// Calls `App::sudo` of `cw-multi-test` with `BankSudo::Mint`. An error is
/// handed back as its text. The bank adds amounts without a check, so the
/// coins held and the coins minted of each denomination must together fit
/// in 128 bits. The contract claims that an accepted mint adds exactly the
/// minted coins to those held, that a refused one changes nothing, and that
/// no mint adds a validator.
#[verifier::external_body]
pub(crate) fn simulator_mint(app: &mut App, to_address: &String, amount: &Vec<Coin>) -> (r: Result<
    (),
    String,
>)
    requires
        forall|denom: Seq<char>| #[trigger]
            supply_of(*old(app), denom) + amount_of(amount.deep_view(), denom) <= u128::MAX,
    ensures
        r is Ok ==> forall|denom: Seq<char>| #[trigger]
            supply_of(*final(app), denom) == supply_of(*old(app), denom) + amount_of(
                amount.deep_view(),
                denom,
            ),
        r is Err ==> *final(app) == *old(app),
        without_validators(*final(app)) == without_validators(*old(app)),
{
    let amount = amount.iter().map(|c| coin(c.amount, c.denom.clone())).collect();
    match app.sudo(SudoMsg::Bank(BankSudo::Mint { to_address: to_address.clone(), amount })) {
        Ok(_) => Ok(()),
        Err(e) => Err(e.to_string()),
    }
}

/// Calls `Querier::raw_query` of `cosmwasm-std` on the simulator with a
/// `QueryRequest::Stargate` of the given path and request bytes, encoded by
/// `to_json_vec`. An error of either layer is handed back as its text.
/// Nothing is claimed of the answer.
#[verifier::external_body]
#[allow(deprecated)]
pub(crate) fn simulator_query(app: &App, path: &str, data: &Vec<u8>) -> (r: Result<
    Vec<u8>,
    String,
>) {
    let request: QueryRequest<Empty> = QueryRequest::Stargate {
        path: path.to_string(),
        data: Binary::new(data.clone()),
    };
    let bytes = match to_json_vec(&request) {
        Ok(bytes) => bytes,
        Err(e) => return Err(e.to_string()),
    };
    match app.raw_query(&bytes) {
        SystemResult::Ok(ContractResult::Ok(answer)) => Ok(answer.to_vec()),
        SystemResult::Ok(ContractResult::Err(e)) => Err(e),
        SystemResult::Err(e) => Err(e.to_string()),
    }
}

/// Calls `QuerierWrapper::query_all_balances` of `cosmwasm-std` on the
/// simulator. An error is handed back as its text. Nothing is claimed of the
/// answer: it depends on the simulator's state.
#[verifier::external_body]
#[allow(deprecated)]
pub(crate) fn simulator_all_balances(app: &App, address: &String) -> (r: Result<Vec<Coin>, String>) {
    match app.wrap().query_all_balances(address.clone()) {
        Ok(coins) => Ok(
            coins.into_iter().map(|c| Coin { denom: c.denom, amount: c.amount.u128() }).collect(),
        ),
        Err(e) => Err(e.to_string()),
    }
}

/// Calls `QuerierWrapper::query_balance` of `cosmwasm-std` on the simulator.
/// An error is handed back as its text. Nothing is claimed of the answer: it
/// depends on the simulator's state.
#[verifier::external_body]
pub(crate) fn simulator_balance(app: &App, address: &String, denom: &String) -> (r: Result<
    Coin,
    String,
>) {
    match app.wrap().query_balance(address.clone(), denom.clone()) {
        Ok(c) => Ok(Coin { denom: c.denom, amount: c.amount.u128() }),
        Err(e) => Err(e.to_string()),
    }
}

/// Whether `prefix` can stand before an address: lower-case letters and
/// digits only.
pub open spec fn valid_prefix(prefix: Seq<char>) -> bool {
    forall|i: int|
        0 <= i < prefix.len() ==> ('a' <= #[trigger] prefix[i] && prefix[i] <= 'z') || ('0'
            <= prefix[i] && prefix[i] <= '9')
}

/// Whether `address` is written under `prefix`: the prefix, the separator
/// `1`, then the encoded key hash and checksum.
pub open spec fn addressed_under(address: Seq<char>, prefix: Seq<char>) -> bool {
    address.len() > prefix.len() && address.subrange(0, prefix.len() as int) == prefix
        && address[prefix.len() as int] == '1'
}

/// Calls `SigningKey::random` of `cosmrs` and derives the address of the new
/// key under `prefix` with `PublicKey::account_id`. The key is random, so
/// nothing is claimed of it. The contract claims that the address is derived
/// exactly where the prefix is valid, and that it is then written under the
/// prefix; otherwise the error is handed back as its text.
#[verifier::external_body]
pub(crate) fn new_identity(prefix: &str) -> (r: Result<(String, SigningKey), String>)
    ensures
        r is Ok <==> valid_prefix(prefix@),
        r matches Ok(identity) ==> addressed_under(identity.0@, prefix@),
{
    let signing_key = SigningKey::random();
    match signing_key.public_key().account_id(prefix) {
        Ok(id) => Ok((id.to_string(), signing_key)),
        Err(e) => Err(e.to_string()),
    }
}

} // verus!
