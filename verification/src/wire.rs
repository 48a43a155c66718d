//! The wire schemas of the known message kinds.
//!
//! Each payload is a protocol-buffers encoding. Decoding is left to the
//! schema definitions of `osmosis-std`; this module names what they return
//! and hands the fields on as plain values. A coin on the wire is a pair of
//! strings: the denomination and the amount as a decimal literal.

use crate::message::{Coin, CoinView};
use osmosis_std::types::cosmos::bank::v1beta1::{
    MsgSend, QueryAllBalancesRequest, QueryAllBalancesResponse, QueryBalanceRequest,
    QueryBalanceResponse,
};
use osmosis_std::types::cosmos::base::v1beta1::Coin as WireCoin;
use osmosis_std::types::cosmos::staking::v1beta1::{MsgBeginRedelegate, MsgDelegate, MsgUndelegate};
use osmosis_std::types::cosmwasm::wasm::v1::{
    MsgClearAdmin, MsgExecuteContract, MsgInstantiateContract, MsgMigrateContract, MsgUpdateAdmin,
};
use prost::Message;
use vstd::prelude::*;

verus! {

/// The fields `(contract, msg, funds)` of the `MsgExecuteContract` that
/// `payload` encodes, or `None` where it encodes none.
pub uninterp spec fn wire_execute_contract(payload: Seq<u8>) -> Option<
    (Seq<char>, Seq<u8>, Seq<(Seq<char>, Seq<char>)>),
>;

/// The fields `(code_id, admin, msg, funds, label)` of the
/// `MsgInstantiateContract` that `payload` encodes, or `None`.
pub uninterp spec fn wire_instantiate_contract(payload: Seq<u8>) -> Option<
    (u64, Seq<char>, Seq<u8>, Seq<(Seq<char>, Seq<char>)>, Seq<char>),
>;

/// The fields `(contract, code_id, msg)` of the `MsgMigrateContract` that
/// `payload` encodes, or `None`.
pub uninterp spec fn wire_migrate_contract(payload: Seq<u8>) -> Option<(Seq<char>, u64, Seq<u8>)>;

/// The fields `(contract, new_admin)` of the `MsgUpdateAdmin` that `payload`
/// encodes, or `None`.
pub uninterp spec fn wire_update_admin(payload: Seq<u8>) -> Option<(Seq<char>, Seq<char>)>;

/// The field `contract` of the `MsgClearAdmin` that `payload` encodes, or
/// `None`.
pub uninterp spec fn wire_clear_admin(payload: Seq<u8>) -> Option<Seq<char>>;

/// The fields `(to_address, amount)` of the `MsgSend` that `payload` encodes,
/// or `None`.
pub uninterp spec fn wire_send(payload: Seq<u8>) -> Option<(Seq<char>, Seq<(Seq<char>, Seq<char>)>)>;

/// The fields `(validator_address, amount)` of the `MsgDelegate` that
/// `payload` encodes, or `None`. The amount is optional on the wire.
pub uninterp spec fn wire_delegate(payload: Seq<u8>) -> Option<
    (Seq<char>, Option<(Seq<char>, Seq<char>)>),
>;

/// The fields `(validator_address, amount)` of the `MsgUndelegate` that
/// `payload` encodes, or `None`. The amount is optional on the wire.
pub uninterp spec fn wire_undelegate(payload: Seq<u8>) -> Option<
    (Seq<char>, Option<(Seq<char>, Seq<char>)>),
>;

/// The fields `(validator_src_address, validator_dst_address, amount)` of the
/// `MsgBeginRedelegate` that `payload` encodes, or `None`. The amount is
/// optional on the wire.
pub uninterp spec fn wire_begin_redelegate(payload: Seq<u8>) -> Option<
    (Seq<char>, Seq<char>, Option<(Seq<char>, Seq<char>)>),
>;

/// Calls `MsgExecuteContract::decode` of `osmosis-std` (prost). The contract
/// claims only that the outcome is a function of the payload, and names it.
#[verifier::external_body]
pub(crate) fn decode_execute_contract(payload: &Vec<u8>) -> (r: Option<
    (String, Vec<u8>, Vec<(String, String)>),
>)
    ensures
        r.deep_view() == wire_execute_contract(payload@),
{
    match MsgExecuteContract::decode(payload.as_slice()) {
        Ok(m) => Some(
            (m.contract, m.msg, m.funds.into_iter().map(|c| (c.denom, c.amount)).collect()),
        ),
        Err(_) => None,
    }
}

/// Calls `MsgInstantiateContract::decode` of `osmosis-std` (prost). The
/// contract claims only that the outcome is a function of the payload, and
/// names it.
#[verifier::external_body]
pub(crate) fn decode_instantiate_contract(payload: &Vec<u8>) -> (r: Option<
    (u64, String, Vec<u8>, Vec<(String, String)>, String),
>)
    ensures
        r.deep_view() == wire_instantiate_contract(payload@),
{
    match MsgInstantiateContract::decode(payload.as_slice()) {
        Ok(m) => {
            let funds = m.funds.into_iter().map(|c| (c.denom, c.amount)).collect();
            Some((m.code_id, m.admin, m.msg, funds, m.label))
        },
        Err(_) => None,
    }
}

/// Calls `MsgMigrateContract::decode` of `osmosis-std` (prost). The contract
/// claims only that the outcome is a function of the payload, and names it.
#[verifier::external_body]
pub(crate) fn decode_migrate_contract(payload: &Vec<u8>) -> (r: Option<(String, u64, Vec<u8>)>)
    ensures
        r.deep_view() == wire_migrate_contract(payload@),
{
    match MsgMigrateContract::decode(payload.as_slice()) {
        Ok(m) => Some((m.contract, m.code_id, m.msg)),
        Err(_) => None,
    }
}

/// Calls `MsgUpdateAdmin::decode` of `osmosis-std` (prost). The contract
/// claims only that the outcome is a function of the payload, and names it.
#[verifier::external_body]
pub(crate) fn decode_update_admin(payload: &Vec<u8>) -> (r: Option<(String, String)>)
    ensures
        r.deep_view() == wire_update_admin(payload@),
{
    match MsgUpdateAdmin::decode(payload.as_slice()) {
        Ok(m) => Some((m.contract, m.new_admin)),
        Err(_) => None,
    }
}

/// Calls `MsgClearAdmin::decode` of `osmosis-std` (prost). The contract
/// claims only that the outcome is a function of the payload, and names it.
#[verifier::external_body]
pub(crate) fn decode_clear_admin(payload: &Vec<u8>) -> (r: Option<String>)
    ensures
        r.deep_view() == wire_clear_admin(payload@),
{
    match MsgClearAdmin::decode(payload.as_slice()) {
        Ok(m) => Some(m.contract),
        Err(_) => None,
    }
}

/// Calls `MsgSend::decode` of `osmosis-std` (prost). The contract claims only
/// that the outcome is a function of the payload, and names it.
#[verifier::external_body]
pub(crate) fn decode_send(payload: &Vec<u8>) -> (r: Option<(String, Vec<(String, String)>)>)
    ensures
        r.deep_view() == wire_send(payload@),
{
    match MsgSend::decode(payload.as_slice()) {
        Ok(m) => Some((m.to_address, m.amount.into_iter().map(|c| (c.denom, c.amount)).collect())),
        Err(_) => None,
    }
}

/// Calls `MsgDelegate::decode` of `osmosis-std` (prost). The contract claims
/// only that the outcome is a function of the payload, and names it.
#[verifier::external_body]
pub(crate) fn decode_delegate(payload: &Vec<u8>) -> (r: Option<(String, Option<(String, String)>)>)
    ensures
        r.deep_view() == wire_delegate(payload@),
{
    match MsgDelegate::decode(payload.as_slice()) {
        Ok(m) => Some((m.validator_address, m.amount.map(|c| (c.denom, c.amount)))),
        Err(_) => None,
    }
}

/// Calls `MsgUndelegate::decode` of `osmosis-std` (prost). The contract
/// claims only that the outcome is a function of the payload, and names it.
#[verifier::external_body]
pub(crate) fn decode_undelegate(payload: &Vec<u8>) -> (r: Option<
    (String, Option<(String, String)>),
>)
    ensures
        r.deep_view() == wire_undelegate(payload@),
{
    match MsgUndelegate::decode(payload.as_slice()) {
        Ok(m) => Some((m.validator_address, m.amount.map(|c| (c.denom, c.amount)))),
        Err(_) => None,
    }
}

/// Calls `MsgBeginRedelegate::decode` of `osmosis-std` (prost). The contract
/// claims only that the outcome is a function of the payload, and names it.
#[verifier::external_body]
pub(crate) fn decode_begin_redelegate(payload: &Vec<u8>) -> (r: Option<
    (String, String, Option<(String, String)>),
>)
    ensures
        r.deep_view() == wire_begin_redelegate(payload@),
{
    match MsgBeginRedelegate::decode(payload.as_slice()) {
        Ok(m) => {
            let amount = m.amount.map(|c| (c.denom, c.amount));
            Some((m.validator_src_address, m.validator_dst_address, amount))
        },
        Err(_) => None,
    }
}

/// The field `address` of the `QueryAllBalancesRequest` that `request`
/// encodes, or `None` where it encodes none.
pub uninterp spec fn wire_all_balances_request(request: Seq<u8>) -> Option<Seq<char>>;

/// The fields `(address, denom)` of the `QueryBalanceRequest` that `request`
/// encodes, or `None` where it encodes none.
pub uninterp spec fn wire_balance_request(request: Seq<u8>) -> Option<(Seq<char>, Seq<char>)>;

/// The JSON text of the `QueryAllBalancesResponse` with the given balances
/// and no pagination, or `None` where it cannot be written.
pub uninterp spec fn all_balances_response(balances: Seq<CoinView>) -> Option<Seq<u8>>;

/// The JSON text of the `QueryBalanceResponse` with the given balance, or
/// `None` where it cannot be written.
pub uninterp spec fn balance_response(balance: CoinView) -> Option<Seq<u8>>;

/// Calls `QueryAllBalancesRequest::decode` of `osmosis-std` (prost). The
/// contract claims only that the outcome is a function of the request, and
/// names it.
#[verifier::external_body]
pub(crate) fn decode_all_balances_request(request: &Vec<u8>) -> (r: Option<String>)
    ensures
        r.deep_view() == wire_all_balances_request(request@),
{
    match QueryAllBalancesRequest::decode(request.as_slice()) {
        Ok(q) => Some(q.address),
        Err(_) => None,
    }
}

/// Calls `QueryBalanceRequest::decode` of `osmosis-std` (prost). The contract
/// claims only that the outcome is a function of the request, and names it.
#[verifier::external_body]
pub(crate) fn decode_balance_request(request: &Vec<u8>) -> (r: Option<(String, String)>)
    ensures
        r.deep_view() == wire_balance_request(request@),
{
    match QueryBalanceRequest::decode(request.as_slice()) {
        Ok(q) => Some((q.address, q.denom)),
        Err(_) => None,
    }
}

/// Calls `to_json_vec` of `cosmwasm-std` on a `QueryAllBalancesResponse` of
/// `osmosis-std` with the given balances. The contract claims only that the
/// outcome is a function of the balances' values, and names it.
#[verifier::external_body]
pub(crate) fn encode_all_balances_response(balances: &Vec<Coin>) -> (r: Option<Vec<u8>>)
    ensures
        r is Some <==> all_balances_response(balances.deep_view()) is Some,
        r matches Some(bytes) ==> all_balances_response(balances.deep_view()) == Some(bytes@),
{
    let balances = balances.iter().map(
        |c| WireCoin { denom: c.denom.clone(), amount: c.amount.to_string() },
    ).collect();
    cosmwasm_std::to_json_vec(&QueryAllBalancesResponse { balances, pagination: None }).ok()
}

/// Calls `to_json_vec` of `cosmwasm-std` on a `QueryBalanceResponse` of
/// `osmosis-std` with the given balance. The contract claims only that the
/// outcome is a function of the balance's value, and names it.
#[verifier::external_body]
pub(crate) fn encode_balance_response(balance: &Coin) -> (r: Option<Vec<u8>>)
    ensures
        r is Some <==> balance_response(balance.deep_view()) is Some,
        r matches Some(bytes) ==> balance_response(balance.deep_view()) == Some(bytes@),
{
    let balance = WireCoin { denom: balance.denom.clone(), amount: balance.amount.to_string() };
    cosmwasm_std::to_json_vec(&QueryBalanceResponse { balance: Some(balance) }).ok()
}

} // verus!
