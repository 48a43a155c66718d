//! The message decoder: a fixed table from type tags to the canonical
//! operations, with a passthrough for every other tag.

use crate::amount::{parse_amount, parse_amount_spec};
use crate::message::{Any, CanonicalMessage, Coin, CoinView, DecodeError, DecodeErrorView, MessageView};
use crate::wire::{
    decode_begin_redelegate, decode_clear_admin, decode_delegate, decode_execute_contract,
    decode_instantiate_contract, decode_migrate_contract, decode_send, decode_undelegate,
    decode_update_admin, wire_begin_redelegate, wire_clear_admin, wire_delegate,
    wire_execute_contract, wire_instantiate_contract, wire_migrate_contract, wire_send,
    wire_undelegate, wire_update_admin,
};
use vstd::prelude::*;

verus! {

/// The tag of a call to a contract.
pub const MSG_EXECUTE_CONTRACT: &'static str = "/cosmwasm.wasm.v1.MsgExecuteContract";

/// The tag of the creation of a contract from registered code.
pub const MSG_INSTANTIATE_CONTRACT: &'static str = "/cosmwasm.wasm.v1.MsgInstantiateContract";

/// The tag of the migration of a contract to other code.
pub const MSG_MIGRATE_CONTRACT: &'static str = "/cosmwasm.wasm.v1.MsgMigrateContract";

/// The tag of a change of a contract's admin.
pub const MSG_UPDATE_ADMIN: &'static str = "/cosmwasm.wasm.v1.MsgUpdateAdmin";

/// The tag of the removal of a contract's admin.
pub const MSG_CLEAR_ADMIN: &'static str = "/cosmwasm.wasm.v1.MsgClearAdmin";

/// The tag of a transfer of funds.
pub const MSG_SEND: &'static str = "/cosmos.bank.v1beta1.MsgSend";

/// The tag of a delegation to a validator.
pub const MSG_DELEGATE: &'static str = "/cosmos.staking.v1beta1.MsgDelegate";

/// The tag of the withdrawal of a delegation.
pub const MSG_UNDELEGATE: &'static str = "/cosmos.staking.v1beta1.MsgUndelegate";

/// The tag of the move of a delegation from one validator to another.
pub const MSG_BEGIN_REDELEGATE: &'static str = "/cosmos.staking.v1beta1.MsgBeginRedelegate";

/// A coin as it stands on the wire: the denomination, then the amount as a
/// decimal literal.
pub type WireCoin = (Seq<char>, Seq<char>);

/// What decoding a message gives: the canonical message or the error.
pub type Decoded = Result<MessageView, DecodeErrorView>;

/// Whether the amount of every wire coin is a valid literal.
pub open spec fn amounts_valid(coins: Seq<WireCoin>) -> bool {
    forall|i: int| 0 <= i < coins.len() ==> parse_amount_spec(#[trigger] coins[i].1) is Some
}

/// The coin that a wire coin with a valid amount denotes.
pub open spec fn coin_of(coin: WireCoin) -> CoinView {
    CoinView { denom: coin.0, amount: parse_amount_spec(coin.1).unwrap() }
}

/// The coins that wire coins with valid amounts denote, in their order.
pub open spec fn coins_of(coins: Seq<WireCoin>) -> Seq<CoinView> {
    Seq::new(coins.len(), |i: int| coin_of(coins[i]))
}

/// The wire coin of a staking message: where the message carries none, the
/// coin with an empty denomination and an empty amount.
pub open spec fn staked(amount: Option<WireCoin>) -> WireCoin {
    match amount {
        Some(c) => c,
        None => (Seq::empty(), Seq::empty()),
    }
}

/// The error for a payload that does not fit the schema of `tag`.
pub open spec fn malformed(tag: Seq<char>) -> Decoded {
    Err(DecodeErrorView::Malformed { type_tag: tag })
}

/// What a payload under the tag of `MsgExecuteContract` decodes to.
pub open spec fn execute_of(tag: Seq<char>, payload: Seq<u8>) -> Decoded {
    match wire_execute_contract(payload) {
        None => malformed(tag),
        Some(w) => if amounts_valid(w.2) {
            Ok(MessageView::Execute { contract_addr: w.0, msg: w.1, funds: coins_of(w.2) })
        } else {
            Err(DecodeErrorView::InvalidAmount)
        },
    }
}

/// The admin of a new contract: none where the wire carries an empty
/// address.
pub open spec fn admin_of(admin: Seq<char>) -> Option<Seq<char>> {
    if admin.len() == 0 {
        None
    } else {
        Some(admin)
    }
}

/// What a payload under the tag of `MsgInstantiateContract` decodes to.
pub open spec fn instantiate_of(tag: Seq<char>, payload: Seq<u8>) -> Decoded {
    match wire_instantiate_contract(payload) {
        None => malformed(tag),
        Some(w) => if amounts_valid(w.3) {
            Ok(
                MessageView::Instantiate {
                    code_id: w.0,
                    admin: admin_of(w.1),
                    msg: w.2,
                    funds: coins_of(w.3),
                    label: w.4,
                },
            )
        } else {
            Err(DecodeErrorView::InvalidAmount)
        },
    }
}

/// What a payload under the tag of `MsgMigrateContract` decodes to.
pub open spec fn migrate_of(tag: Seq<char>, payload: Seq<u8>) -> Decoded {
    match wire_migrate_contract(payload) {
        None => malformed(tag),
        Some(w) => Ok(MessageView::Migrate { contract_addr: w.0, new_code_id: w.1, msg: w.2 }),
    }
}

/// What a payload under the tag of `MsgUpdateAdmin` decodes to.
pub open spec fn update_admin_of(tag: Seq<char>, payload: Seq<u8>) -> Decoded {
    match wire_update_admin(payload) {
        None => malformed(tag),
        Some(w) => Ok(MessageView::UpdateAdmin { contract_addr: w.0, admin: w.1 }),
    }
}

/// What a payload under the tag of `MsgClearAdmin` decodes to.
pub open spec fn clear_admin_of(tag: Seq<char>, payload: Seq<u8>) -> Decoded {
    match wire_clear_admin(payload) {
        None => malformed(tag),
        Some(w) => Ok(MessageView::ClearAdmin { contract_addr: w }),
    }
}

/// What a payload under the tag of `MsgSend` decodes to.
pub open spec fn send_of(tag: Seq<char>, payload: Seq<u8>) -> Decoded {
    match wire_send(payload) {
        None => malformed(tag),
        Some(w) => if amounts_valid(w.1) {
            Ok(MessageView::Send { to_address: w.0, amount: coins_of(w.1) })
        } else {
            Err(DecodeErrorView::InvalidAmount)
        },
    }
}

/// What a payload under the tag of `MsgDelegate` decodes to. A message
/// without an amount has an invalid amount.
pub open spec fn delegate_of(tag: Seq<char>, payload: Seq<u8>) -> Decoded {
    match wire_delegate(payload) {
        None => malformed(tag),
        Some(w) => if parse_amount_spec(staked(w.1).1) is Some {
            Ok(MessageView::Delegate { validator: w.0, amount: coin_of(staked(w.1)) })
        } else {
            Err(DecodeErrorView::InvalidAmount)
        },
    }
}

/// What a payload under the tag of `MsgUndelegate` decodes to. A message
/// without an amount has an invalid amount.
pub open spec fn undelegate_of(tag: Seq<char>, payload: Seq<u8>) -> Decoded {
    match wire_undelegate(payload) {
        None => malformed(tag),
        Some(w) => if parse_amount_spec(staked(w.1).1) is Some {
            Ok(MessageView::Undelegate { validator: w.0, amount: coin_of(staked(w.1)) })
        } else {
            Err(DecodeErrorView::InvalidAmount)
        },
    }
}

/// What a payload under the tag of `MsgBeginRedelegate` decodes to. A
/// message without an amount has an invalid amount.
pub open spec fn redelegate_of(tag: Seq<char>, payload: Seq<u8>) -> Decoded {
    match wire_begin_redelegate(payload) {
        None => malformed(tag),
        Some(w) => if parse_amount_spec(staked(w.2).1) is Some {
            Ok(
                MessageView::Redelegate {
                    src_validator: w.0,
                    dst_validator: w.1,
                    amount: coin_of(staked(w.2)),
                },
            )
        } else {
            Err(DecodeErrorView::InvalidAmount)
        },
    }
}

/// Whether `tag` is one of the tags that the decoder knows.
pub open spec fn known_tag(tag: Seq<char>) -> bool {
    tag == MSG_EXECUTE_CONTRACT@ || tag == MSG_INSTANTIATE_CONTRACT@ || tag
        == MSG_MIGRATE_CONTRACT@ || tag == MSG_UPDATE_ADMIN@ || tag == MSG_CLEAR_ADMIN@ || tag
        == MSG_SEND@ || tag == MSG_DELEGATE@ || tag == MSG_UNDELEGATE@ || tag
        == MSG_BEGIN_REDELEGATE@
}

/// What the message with tag `tag` and payload `payload` decodes to: the
/// table is searched in this order, contract operations first, then the
/// transfer, then staking; any other tag is passed through.
pub open spec fn decoded(tag: Seq<char>, payload: Seq<u8>) -> Decoded {
    if tag == MSG_EXECUTE_CONTRACT@ {
        execute_of(tag, payload)
    } else if tag == MSG_INSTANTIATE_CONTRACT@ {
        instantiate_of(tag, payload)
    } else if tag == MSG_MIGRATE_CONTRACT@ {
        migrate_of(tag, payload)
    } else if tag == MSG_UPDATE_ADMIN@ {
        update_admin_of(tag, payload)
    } else if tag == MSG_CLEAR_ADMIN@ {
        clear_admin_of(tag, payload)
    } else if tag == MSG_SEND@ {
        send_of(tag, payload)
    } else if tag == MSG_DELEGATE@ {
        delegate_of(tag, payload)
    } else if tag == MSG_UNDELEGATE@ {
        undelegate_of(tag, payload)
    } else if tag == MSG_BEGIN_REDELEGATE@ {
        redelegate_of(tag, payload)
    } else {
        Ok(MessageView::Passthrough { type_url: tag, value: payload })
    }
}

/// The mathematical value of a decoder's outcome.
pub open spec fn outcome_view(r: Result<CanonicalMessage, DecodeError>) -> Decoded {
    match r {
        Ok(m) => Ok(m.deep_view()),
        Err(e) => Err(e.deep_view()),
    }
}

/// A message with a tag that the decoder does not know is never an error:
/// it is passed through with its tag and payload unchanged.
pub proof fn lemma_unknown_tag_passes(tag: Seq<char>, payload: Seq<u8>)
    requires
        !known_tag(tag),
    ensures
        decoded(tag, payload) == Ok::<MessageView, DecodeErrorView>(
            MessageView::Passthrough { type_url: tag, value: payload },
        ),
{
}

/// Decoding is a function of the tag and the payload: two messages that
/// agree in both decode alike.
pub proof fn lemma_decode_deterministic(a: Any, b: Any)
    requires
        a.type_url@ == b.type_url@,
        a.value@ == b.value@,
    ensures
        decoded(a.type_url@, a.value@) == decoded(b.type_url@, b.value@),
{
}

/// Whether `tag` is exactly `name`.
fn tag_is(tag: &String, name: &str) -> (b: bool)
    ensures
        b == (tag@ == name@),
{
    let owned = name.to_owned();
    tag.eq(&owned)
}

/// A copy of `bytes`.
fn copy_bytes(bytes: &Vec<u8>) -> (r: Vec<u8>)
    ensures
        r@ == bytes@,
{
    let mut r: Vec<u8> = Vec::new();
    let mut i: usize = 0;
    while i < bytes.len()
        invariant
            i <= bytes.len(),
            r@ == bytes@.subrange(0, i as int),
        decreases bytes.len() - i,
    {
        r.push(bytes[i]);
        i = i + 1;
        assert(r@ =~= bytes@.subrange(0, i as int));
    }
    assert(bytes@.subrange(0, i as int) =~= bytes@);
    r
}

/// The error for a payload that does not fit the schema of `tag`.
fn malformed_error(tag: &String) -> (e: DecodeError)
    ensures
        e.deep_view() == (DecodeErrorView::Malformed { type_tag: tag@ }),
{
    DecodeError::Malformed { type_tag: tag.clone() }
}

/// Turns one wire coin into a coin, where its amount is valid.
fn convert_coin(coin: &(String, String)) -> (r: Option<Coin>)
    ensures
        r is Some <==> parse_amount_spec(coin.1@) is Some,
        r matches Some(c) ==> c.deep_view() == coin_of(coin.deep_view()),
{
    match parse_amount(coin.1.as_str()) {
        Some(amount) => Some(Coin { denom: coin.0.clone(), amount }),
        None => None,
    }
}

/// Turns wire coins into coins, where every amount is valid.
fn convert_coins(coins: &Vec<(String, String)>) -> (r: Option<Vec<Coin>>)
    ensures
        r is Some <==> amounts_valid(coins.deep_view()),
        r matches Some(v) ==> v.deep_view() == coins_of(coins.deep_view()),
{
    let mut out: Vec<Coin> = Vec::new();
    let mut i: usize = 0;
    let ghost wire = coins.deep_view();
    while i < coins.len()
        invariant
            i <= coins.len(),
            wire == coins.deep_view(),
            wire.len() == coins.len(),
            out.len() == i,
            forall|j: int| 0 <= j < i ==> parse_amount_spec(#[trigger] wire[j].1) is Some,
            forall|j: int| 0 <= j < i ==> (#[trigger] out[j]).deep_view() == coin_of(wire[j]),
        decreases coins.len() - i,
    {
        assert(wire[i as int] == coins[i as int].deep_view());
        match convert_coin(&coins[i]) {
            Some(c) => {
                out.push(c);
            },
            None => {
                assert(parse_amount_spec(wire[i as int].1) is None);
                return None;
            },
        }
        i = i + 1;
    }
    assert(out.deep_view() =~= coins_of(wire));
    Some(out)
}

/// The wire coin of a staking message as strings; see [`staked`].
fn staked_coin(amount: Option<(String, String)>) -> (r: (String, String))
    ensures
        r.deep_view() == staked(amount.deep_view()),
{
    match amount {
        Some(c) => c,
        None => (String::new(), String::new()),
    }
}

/// Decodes a call to a contract.
fn decode_execute(msg: &Any) -> (r: Result<CanonicalMessage, DecodeError>)
    ensures
        outcome_view(r) == execute_of(msg.type_url@, msg.value@),
{
    match decode_execute_contract(&msg.value) {
        None => Err(malformed_error(&msg.type_url)),
        Some((contract_addr, body, funds)) => {
            assert(body.deep_view() =~= body@);
            match convert_coins(&funds) {
                None => Err(DecodeError::InvalidAmount),
                Some(funds) => Ok(CanonicalMessage::Execute { contract_addr, msg: body, funds }),
            }
        },
    }
}

/// Decodes the creation of a contract.
fn decode_instantiate(msg: &Any) -> (r: Result<CanonicalMessage, DecodeError>)
    ensures
        outcome_view(r) == instantiate_of(msg.type_url@, msg.value@),
{
    match decode_instantiate_contract(&msg.value) {
        None => Err(malformed_error(&msg.type_url)),
        Some((code_id, admin, body, funds, label)) => {
            assert(body.deep_view() =~= body@);
            match convert_coins(&funds) {
                None => Err(DecodeError::InvalidAmount),
                Some(funds) => Ok(
                    CanonicalMessage::Instantiate {
                        code_id,
                        admin: if admin.as_str().is_empty() {
                            None
                        } else {
                            Some(admin)
                        },
                        msg: body,
                        funds,
                        label,
                    },
                ),
            }
        },
    }
}

/// Decodes the migration of a contract.
fn decode_migrate(msg: &Any) -> (r: Result<CanonicalMessage, DecodeError>)
    ensures
        outcome_view(r) == migrate_of(msg.type_url@, msg.value@),
{
    match decode_migrate_contract(&msg.value) {
        None => Err(malformed_error(&msg.type_url)),
        Some((contract_addr, new_code_id, body)) => {
            assert(body.deep_view() =~= body@);
            Ok(CanonicalMessage::Migrate { contract_addr, new_code_id, msg: body })
        },
    }
}

/// Decodes a change of admin.
fn decode_admin_update(msg: &Any) -> (r: Result<CanonicalMessage, DecodeError>)
    ensures
        outcome_view(r) == update_admin_of(msg.type_url@, msg.value@),
{
    match decode_update_admin(&msg.value) {
        None => Err(malformed_error(&msg.type_url)),
        Some((contract_addr, admin)) => Ok(CanonicalMessage::UpdateAdmin { contract_addr, admin }),
    }
}

/// Decodes the removal of an admin.
fn decode_admin_clear(msg: &Any) -> (r: Result<CanonicalMessage, DecodeError>)
    ensures
        outcome_view(r) == clear_admin_of(msg.type_url@, msg.value@),
{
    match decode_clear_admin(&msg.value) {
        None => Err(malformed_error(&msg.type_url)),
        Some(contract_addr) => Ok(CanonicalMessage::ClearAdmin { contract_addr }),
    }
}

/// Decodes a transfer of funds.
fn decode_transfer(msg: &Any) -> (r: Result<CanonicalMessage, DecodeError>)
    ensures
        outcome_view(r) == send_of(msg.type_url@, msg.value@),
{
    match decode_send(&msg.value) {
        None => Err(malformed_error(&msg.type_url)),
        Some((to_address, amount)) => match convert_coins(&amount) {
            None => Err(DecodeError::InvalidAmount),
            Some(amount) => Ok(CanonicalMessage::Send { to_address, amount }),
        },
    }
}

/// Decodes a delegation.
fn decode_delegation(msg: &Any) -> (r: Result<CanonicalMessage, DecodeError>)
    ensures
        outcome_view(r) == delegate_of(msg.type_url@, msg.value@),
{
    match decode_delegate(&msg.value) {
        None => Err(malformed_error(&msg.type_url)),
        Some((validator, amount)) => match convert_coin(&staked_coin(amount)) {
            None => Err(DecodeError::InvalidAmount),
            Some(amount) => Ok(CanonicalMessage::Delegate { validator, amount }),
        },
    }
}

/// Decodes the withdrawal of a delegation.
fn decode_undelegation(msg: &Any) -> (r: Result<CanonicalMessage, DecodeError>)
    ensures
        outcome_view(r) == undelegate_of(msg.type_url@, msg.value@),
{
    match decode_undelegate(&msg.value) {
        None => Err(malformed_error(&msg.type_url)),
        Some((validator, amount)) => match convert_coin(&staked_coin(amount)) {
            None => Err(DecodeError::InvalidAmount),
            Some(amount) => Ok(CanonicalMessage::Undelegate { validator, amount }),
        },
    }
}

/// Decodes the move of a delegation.
fn decode_redelegation(msg: &Any) -> (r: Result<CanonicalMessage, DecodeError>)
    ensures
        outcome_view(r) == redelegate_of(msg.type_url@, msg.value@),
{
    match decode_begin_redelegate(&msg.value) {
        None => Err(malformed_error(&msg.type_url)),
        Some((src_validator, dst_validator, amount)) => match convert_coin(&staked_coin(amount)) {
            None => Err(DecodeError::InvalidAmount),
            Some(amount) => Ok(
                CanonicalMessage::Redelegate { src_validator, dst_validator, amount },
            ),
        },
    }
}

/// Decodes one tagged message into its canonical form.
pub fn decode(msg: &Any) -> (r: Result<CanonicalMessage, DecodeError>)
    ensures
        outcome_view(r) == decoded(msg.type_url@, msg.value@),
{
    let tag = &msg.type_url;
    if tag_is(tag, MSG_EXECUTE_CONTRACT) {
        decode_execute(msg)
    } else if tag_is(tag, MSG_INSTANTIATE_CONTRACT) {
        decode_instantiate(msg)
    } else if tag_is(tag, MSG_MIGRATE_CONTRACT) {
        decode_migrate(msg)
    } else if tag_is(tag, MSG_UPDATE_ADMIN) {
        decode_admin_update(msg)
    } else if tag_is(tag, MSG_CLEAR_ADMIN) {
        decode_admin_clear(msg)
    } else if tag_is(tag, MSG_SEND) {
        decode_transfer(msg)
    } else if tag_is(tag, MSG_DELEGATE) {
        decode_delegation(msg)
    } else if tag_is(tag, MSG_UNDELEGATE) {
        decode_undelegation(msg)
    } else if tag_is(tag, MSG_BEGIN_REDELEGATE) {
        decode_redelegation(msg)
    } else {
        Ok(CanonicalMessage::Passthrough { type_url: tag.clone(), value: copy_bytes(&msg.value) })
    }
}

/// What a batch decodes to: the canonical messages in their order where
/// every message decodes, else the error of the first that does not.
pub open spec fn decoded_batch(msgs: Seq<Any>) -> Result<Seq<MessageView>, DecodeErrorView>
    decreases msgs.len(),
{
    if msgs.len() == 0 {
        Ok(Seq::empty())
    } else {
        match decoded_batch(msgs.drop_last()) {
            Err(e) => Err(e),
            Ok(front) => match decoded(msgs.last().type_url@, msgs.last().value@) {
                Err(e) => Err(e),
                Ok(m) => Ok(front.push(m)),
            },
        }
    }
}

/// What the message at position `i` of a batch decodes to.
pub open spec fn decoded_at(msgs: Seq<Any>, i: int) -> Decoded {
    decoded(msgs[i].type_url@, msgs[i].value@)
}

/// A batch decodes exactly where each of its messages does, and then to the
/// decoded messages, one for each, in their order.
pub proof fn lemma_batch_elementwise(msgs: Seq<Any>)
    ensures
        decoded_batch(msgs) is Ok <==> (forall|i: int|
            0 <= i < msgs.len() ==> (#[trigger] decoded_at(msgs, i)) is Ok),
        decoded_batch(msgs) matches Ok(v) ==> v.len() == msgs.len() && (forall|i: int|
            0 <= i < msgs.len() ==> (#[trigger] decoded_at(msgs, i)) == Ok::<
                MessageView,
                DecodeErrorView,
            >(v[i])),
    decreases msgs.len(),
{
    if msgs.len() > 0 {
        let front = msgs.drop_last();
        lemma_batch_elementwise(front);
        assert forall|i: int| 0 <= i < front.len() implies decoded_at(front, i) == decoded_at(
            msgs,
            i,
        ) by {}
        let last = msgs.len() - 1;
        assert(decoded_at(msgs, last) == decoded(msgs.last().type_url@, msgs.last().value@));
        if decoded_batch(front) is Err {
            let k = choose|k: int| 0 <= k < front.len() && !(#[trigger] decoded_at(front, k) is Ok);
            assert(!(decoded_at(msgs, k) is Ok));
        }
    }
}

/// A batch of one message decodes as that message does.
pub proof fn lemma_batch_of_one(msg: Any)
    ensures
        decoded_batch(seq![msg]) == match decoded(msg.type_url@, msg.value@) {
            Ok(m) => Ok::<Seq<MessageView>, DecodeErrorView>(seq![m]),
            Err(e) => Err(e),
        },
{
    let one = seq![msg];
    assert(one.drop_last() =~= Seq::<Any>::empty());
    assert(one.last() == msg);
    assert(decoded_batch(one.drop_last()) == Ok::<Seq<MessageView>, DecodeErrorView>(Seq::empty()));
    match decoded(msg.type_url@, msg.value@) {
        Ok(m) => {
            assert(Seq::<MessageView>::empty().push(m) =~= seq![m]);
        },
        Err(_) => {},
    }
}

/// The mathematical value of a batch decoder's outcome.
pub open spec fn batch_view(r: Result<Vec<CanonicalMessage>, DecodeError>) -> Result<
    Seq<MessageView>,
    DecodeErrorView,
> {
    match r {
        Ok(v) => Ok(v.deep_view()),
        Err(e) => Err(e.deep_view()),
    }
}

/// Decodes a batch of tagged messages; the whole batch is given up at the
/// first message that does not decode.
pub fn decode_messages(msgs: &Vec<Any>) -> (r: Result<Vec<CanonicalMessage>, DecodeError>)
    ensures
        batch_view(r) == decoded_batch(msgs@),
{
    let mut out: Vec<CanonicalMessage> = Vec::new();
    let mut i: usize = 0;
    assert(msgs@.subrange(0, 0) =~= Seq::empty());
    assert(out.deep_view() =~= Seq::empty());
    while i < msgs.len()
        invariant
            i <= msgs.len(),
            decoded_batch(msgs@.subrange(0, i as int)) == Ok::<Seq<MessageView>, DecodeErrorView>(
                out.deep_view(),
            ),
        decreases msgs.len() - i,
    {
        let ghost front = out.deep_view();
        let ghost next = msgs@.subrange(0, i + 1);
        assert(next.drop_last() =~= msgs@.subrange(0, i as int));
        assert(next.last() == msgs@[i as int]);
        match decode(&msgs[i]) {
            Ok(m) => {
                out.push(m);
                assert(out.deep_view() =~= front.push(m.deep_view()));
            },
            Err(e) => {
                proof {
                    lemma_batch_error_stays(msgs@, i + 1);
                }
                return Err(e);
            },
        }
        i = i + 1;
    }
    assert(msgs@.subrange(0, i as int) =~= msgs@);
    Ok(out)
}

/// Once a prefix of a batch fails to decode, the batch fails with the same
/// error.
pub proof fn lemma_batch_error_stays(msgs: Seq<Any>, k: int)
    requires
        0 <= k <= msgs.len(),
        decoded_batch(msgs.subrange(0, k)) is Err,
    ensures
        decoded_batch(msgs) == decoded_batch(msgs.subrange(0, k)),
    decreases msgs.len(),
{
    if k == msgs.len() {
        assert(msgs.subrange(0, k) =~= msgs);
    } else {
        assert(msgs.drop_last().subrange(0, k) =~= msgs.subrange(0, k));
        lemma_batch_error_stays(msgs.drop_last(), k);
    }
}

} // verus!
