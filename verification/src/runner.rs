//! The runner: a simulator and the address prefix of its accounts, with the
//! operations that callers drive it with.

use crate::decode::{
    decode_messages, decoded, decoded_batch, lemma_batch_elementwise, lemma_batch_of_one,
};
use crate::engine::{answer, conclude, QueryError};
use crate::message::{
    amount_in, amount_of, copy_coins, lemma_amount_absent, lemma_amount_concat, Any,
    CanonicalMessage, Coin, CoinView, DecodeError, DecodeErrorView, MessageView,
};
use crate::response::{
    all_events, response_bytes, Event, ExecutionError, ExecutionResult, SubResult,
};
use crate::simulator::{
    addressed_under, bank_send, clear_admin_message, delegate_message, execute_message,
    fresh_simulator, instantiate_message, migrate_message, new_identity, redelegate_message,
    send_message, simulator_all_balances, simulator_balance, simulator_execute, simulator_mint,
    simulator_query, staking_delegate, staking_redelegate, staking_undelegate, stargate,
    stargate_message, sub_result, supply_of, undelegate_message, update_admin_message,
    valid_prefix, without_validators,
    wasm_clear_admin, wasm_execute, wasm_instantiate, wasm_migrate, wasm_update_admin,
};
use crate::wire::{
    all_balances_response, balance_response, decode_all_balances_request, decode_balance_request,
    encode_all_balances_response, encode_balance_response, wire_all_balances_request,
    wire_balance_request,
};
use cosmrs::crypto::secp256k1::SigningKey;
use cosmwasm_std::CosmosMsg;
use cw_multi_test::{App, AppResponse};
use vstd::prelude::*;

verus! {

/// A test harness around one simulator. The simulator is owned by the
/// runner and passed explicitly; several runners can live side by side.
pub struct MultiTestRunner<'a> {
    pub app: App,
    pub address_prefix: &'a str,
    /// The coins that this runner has minted, mint after mint: a bound, for
    /// each denomination, on what the simulator's bank holds.
    pub minted: Vec<Coin>,
}

/// Whether the coins of `balance` can be minted on top of those of `minted`:
/// of no denomination may the two together pass 128 bits, in which the
/// simulator's bank counts.
pub open spec fn mint_fits(minted: Seq<CoinView>, balance: Seq<CoinView>) -> bool {
    forall|denom: Seq<char>|
        amount_of(minted, denom) + #[trigger] amount_of(balance, denom) <= u128::MAX
}

/// Decides whether `balance` can be minted on top of `minted`.
fn fits(minted: &Vec<Coin>, balance: &Vec<Coin>) -> (b: bool)
    requires
        forall|denom: Seq<char>| #[trigger] amount_of(minted.deep_view(), denom) <= u128::MAX,
    ensures
        b == mint_fits(minted.deep_view(), balance.deep_view()),
{
    let ghost held = minted.deep_view();
    let ghost asked = balance.deep_view();
    let mut i: usize = 0;
    while i < balance.len()
        invariant
            i <= balance.len(),
            held == minted.deep_view(),
            asked == balance.deep_view(),
            asked.len() == balance.len(),
            forall|denom: Seq<char>| #[trigger] amount_of(held, denom) <= u128::MAX,
            forall|j: int|
                0 <= j < i ==> amount_of(held, (#[trigger] asked[j]).denom) + amount_of(
                    asked,
                    asked[j].denom,
                ) <= u128::MAX,
        decreases balance.len() - i,
    {
        let denom = &balance[i].denom;
        assert(asked[i as int].denom == denom@);
        let fitting = match amount_in(minted, denom) {
            Some(before) => match amount_in(balance, denom) {
                Some(more) => more <= u128::MAX - before,
                None => false,
            },
            None => false,
        };
        if !fitting {
            assert(!(amount_of(held, denom@) + amount_of(asked, denom@) <= u128::MAX));
            return false;
        }
        i = i + 1;
    }
    proof {
        assert forall|denom: Seq<char>|
            amount_of(held, denom) + #[trigger] amount_of(asked, denom) <= u128::MAX by {
            if exists|j: int| 0 <= j < asked.len() && (#[trigger] asked[j]).denom == denom {
                let j = choose|j: int| 0 <= j < asked.len() && (#[trigger] asked[j]).denom == denom;
                assert(amount_of(held, asked[j].denom) + amount_of(asked, asked[j].denom)
                    <= u128::MAX);
            } else {
                lemma_amount_absent(asked, denom);
            }
        }
    }
    true
}

/// The path of the query for all balances of an address.
pub const QUERY_ALL_BALANCES: &'static str = "/cosmos.bank.v1beta1.Query/AllBalances";

/// The path of the query for the balance of an address in one denomination.
pub const QUERY_BALANCE: &'static str = "/cosmos.bank.v1beta1.Query/Balance";

/// What holds of the answer to a query. A bank query whose request does not
/// decode is refused; one that is answered gives the response for some
/// balances, which are the simulator's to say. Any other path is the
/// simulator's to answer.
pub open spec fn query_answered(
    path: Seq<char>,
    request: Seq<u8>,
    r: Result<Vec<u8>, QueryError>,
) -> bool {
    if path == QUERY_ALL_BALANCES@ {
        match wire_all_balances_request(request) {
            None => r is Err,
            Some(_) => r matches Ok(bytes) ==> exists|balances: Seq<CoinView>| #[trigger]
                all_balances_response(balances) == Some(bytes@),
        }
    } else if path == QUERY_BALANCE@ {
        match wire_balance_request(request) {
            None => r is Err,
            Some(_) => r matches Ok(bytes) ==> exists|balance: CoinView| #[trigger]
                balance_response(balance) == Some(bytes@),
        }
    } else {
        true
    }
}

/// Whether `path` is exactly `name`.
fn path_is(path: &str, name: &str) -> (b: bool)
    ensures
        b == (path@ == name@),
{
    let path = path.to_owned();
    let name = name.to_owned();
    path.eq(&name)
}

/// The refusal of a request that does not fit the schema of its path.
fn malformed_request() -> (r: Result<Vec<u8>, String>)
    ensures
        r is Err,
{
    Err("malformed request".to_owned())
}

/// The refusal of a response that cannot be written.
fn unwritable_response() -> (r: Result<Vec<u8>, String>)
    ensures
        r is Err,
{
    Err("response cannot be encoded".to_owned())
}

/// A synthetic signer: an address and the key it was derived from.
pub struct Account {
    pub address: String,
    pub signing_key: SigningKey,
}

/// Why an account was not created.
#[derive(Debug, Clone, PartialEq, Eq)]
pub enum AccountError {
    /// No address could be derived for the new key.
    KeyGeneration { reason: String },
    /// The simulator refused to mint the initial balance.
    Mint { reason: String },
}

/// Why a batch of tagged messages was not executed.
#[derive(Debug, Clone, PartialEq, Eq)]
pub enum RunnerError {
    /// A message of the batch did not decode; the simulator was not asked.
    Decode(DecodeError),
    /// The simulator refused the batch.
    Execution(ExecutionError),
}

/// The form in which the simulator takes a canonical message: for each
/// operation the simulator's message of that kind, with the same fields.
pub open spec fn simulator_form(msg: MessageView) -> CosmosMsg {
    match msg {
        MessageView::Execute { contract_addr, msg, funds } => execute_message(
            contract_addr,
            msg,
            funds,
        ),
        MessageView::Instantiate { code_id, admin, msg, funds, label } => instantiate_message(
            code_id,
            admin,
            msg,
            funds,
            label,
        ),
        MessageView::Migrate { contract_addr, new_code_id, msg } => migrate_message(
            contract_addr,
            new_code_id,
            msg,
        ),
        MessageView::UpdateAdmin { contract_addr, admin } => update_admin_message(
            contract_addr,
            admin,
        ),
        MessageView::ClearAdmin { contract_addr } => clear_admin_message(contract_addr),
        MessageView::Send { to_address, amount } => send_message(to_address, amount),
        MessageView::Delegate { validator, amount } => delegate_message(validator, amount),
        MessageView::Undelegate { validator, amount } => undelegate_message(validator, amount),
        MessageView::Redelegate { src_validator, dst_validator, amount } => redelegate_message(
            src_validator,
            dst_validator,
            amount,
        ),
        MessageView::Passthrough { type_url, value } => stargate_message(type_url, value),
    }
}

/// Whether `x` is the aggregate of the sub-results `subs`, with no gas
/// metered.
pub open spec fn aggregate_of(subs: Seq<SubResult>, x: ExecutionResult) -> bool {
    x.events@ == all_events(subs) && x.raw_data@ == response_bytes(subs) && x.gas_wanted == 0
        && x.gas_used == 0
}

/// Whether `x` is the aggregate of some `n` sub-results: which these are is
/// the simulator's to say.
pub open spec fn aggregate_of_some(n: nat, x: ExecutionResult) -> bool {
    exists|subs: Seq<SubResult>| subs.len() == n && #[trigger] aggregate_of(subs, x)
}

/// Puts a canonical message into the form in which the simulator takes it.
fn simulator_message(msg: &CanonicalMessage) -> (m: CosmosMsg)
    ensures
        m == simulator_form(msg.deep_view()),
{
    match msg {
        CanonicalMessage::Execute { contract_addr, msg, funds } => wasm_execute(
            contract_addr,
            msg,
            funds,
        ),
        CanonicalMessage::Instantiate { code_id, admin, msg, funds, label } => wasm_instantiate(
            *code_id,
            admin,
            msg,
            funds,
            label,
        ),
        CanonicalMessage::Migrate { contract_addr, new_code_id, msg } => wasm_migrate(
            contract_addr,
            *new_code_id,
            msg,
        ),
        CanonicalMessage::UpdateAdmin { contract_addr, admin } => wasm_update_admin(
            contract_addr,
            admin,
        ),
        CanonicalMessage::ClearAdmin { contract_addr } => wasm_clear_admin(contract_addr),
        CanonicalMessage::Send { to_address, amount } => bank_send(to_address, amount),
        CanonicalMessage::Delegate { validator, amount } => staking_delegate(validator, amount),
        CanonicalMessage::Undelegate { validator, amount } => staking_undelegate(validator, amount),
        CanonicalMessage::Redelegate { src_validator, dst_validator, amount } => staking_redelegate(
            src_validator,
            dst_validator,
            amount,
        ),
        CanonicalMessage::Passthrough { type_url, value } => stargate(type_url, value),
    }
}

/// Puts a batch into the simulator's form, one message for each, in order.
fn simulator_messages(msgs: &Vec<CanonicalMessage>) -> (r: Vec<CosmosMsg>)
    ensures
        r@.len() == msgs@.len(),
        forall|i: int| 0 <= i < msgs@.len() ==> r@[i] == simulator_form(#[trigger] msgs@[i].deep_view()),
{
    let mut out: Vec<CosmosMsg> = Vec::new();
    let mut i: usize = 0;
    while i < msgs.len()
        invariant
            i <= msgs.len(),
            out@.len() == i,
            forall|j: int| 0 <= j < i ==> out@[j] == simulator_form(#[trigger] msgs@[j].deep_view()),
        decreases msgs.len() - i,
    {
        out.push(simulator_message(&msgs[i]));
        i = i + 1;
    }
    out
}

/// Reads the simulator's responses into sub-results, one for each, in order.
fn sub_results(responses: &Vec<AppResponse>) -> (r: Vec<SubResult>)
    ensures
        r@.len() == responses@.len(),
{
    let mut out: Vec<SubResult> = Vec::new();
    let mut i: usize = 0;
    while i < responses.len()
        invariant
            i <= responses.len(),
            out@.len() == i,
        decreases responses.len() - i,
    {
        out.push(sub_result(&responses[i]));
        i = i + 1;
    }
    out
}

impl MultiTestRunner<'static> {
    /// A runner around a simulator in its initial state, whose addresses
    /// carry `address_prefix`.
    pub fn new(address_prefix: &'static str) -> (r: Self)
        ensures
            r.address_prefix == address_prefix,
            r.minted@.len() == 0,
            r.within_supply(),
    {
        let r = MultiTestRunner {
            app: fresh_simulator(address_prefix),
            address_prefix,
            minted: Vec::new(),
        };
        proof {
            assert forall|denom: Seq<char>| #[trigger]
                amount_of(r.minted.deep_view(), denom) == 0 by {
                lemma_amount_absent(r.minted.deep_view(), denom);
            }
        }
        r
    }
}

impl<'a> MultiTestRunner<'a> {
    /// Whether the simulator's bank holds, of each denomination, no more
    /// than this runner has minted, and that fits in 128 bits; and the
    /// simulator has no validator. The bank counts in 128 bits without a
    /// check: the runner mints no coin beyond that.
    pub open spec fn within_supply(&self) -> bool {
        &&& without_validators(self.app)
        &&& forall|denom: Seq<char>| #[trigger]
            supply_of(self.app, denom) <= amount_of(self.minted.deep_view(), denom)
        &&& forall|denom: Seq<char>| #[trigger]
            amount_of(self.minted.deep_view(), denom) <= u128::MAX
    }

    /// Creates an account with a fresh key, whose address is written under
    /// the runner's prefix, and mints `initial_balance` to it. A prefix that
    /// no address can carry gives a key-generation error, and the simulator
    /// is not touched. With an empty balance the simulator is not touched
    /// either, and the account is created whenever the prefix is valid. A
    /// balance that would take the coins minted of some denomination beyond
    /// 128 bits is refused without asking the simulator; otherwise the
    /// simulator decides whether the mint succeeds, and an accepted mint adds
    /// exactly the coins of the balance to those that the bank holds.
    pub fn init_account(&mut self, initial_balance: &Vec<Coin>) -> (r: Result<Account, AccountError>)
        requires
            old(self).within_supply(),
        ensures
            final(self).within_supply(),
            final(self).address_prefix == old(self).address_prefix,
            r matches Err(AccountError::KeyGeneration { .. }) <==> !valid_prefix(
                old(self).address_prefix@,
            ),
            r matches Err(AccountError::Mint { .. }) ==> initial_balance@.len() > 0,
            initial_balance@.len() == 0 && valid_prefix(old(self).address_prefix@) ==> r is Ok,
            r matches Ok(account) ==> addressed_under(account.address@, old(self).address_prefix@),
            r is Ok ==> final(self).minted.deep_view() == old(self).minted.deep_view()
                + initial_balance.deep_view(),
            r is Ok ==> forall|denom: Seq<char>| #[trigger]
                supply_of(final(self).app, denom) == supply_of(old(self).app, denom) + amount_of(
                    initial_balance.deep_view(),
                    denom,
                ),
            r is Err ==> final(self).app == old(self).app && final(self).minted == old(
                self,
            ).minted,
            initial_balance@.len() == 0 ==> final(self).app == old(self).app,
            valid_prefix(old(self).address_prefix@) && initial_balance@.len() > 0 && !mint_fits(
                old(self).minted.deep_view(),
                initial_balance.deep_view(),
            ) ==> r matches Err(AccountError::Mint { .. }),
    {
        let (address, signing_key) = match new_identity(self.address_prefix) {
            Ok(identity) => identity,
            Err(reason) => {
                return Err(AccountError::KeyGeneration { reason });
            },
        };
        let ghost held = self.minted.deep_view();
        let ghost asked = initial_balance.deep_view();
        if initial_balance.len() > 0 {
            if !fits(&self.minted, initial_balance) {
                return Err(AccountError::Mint { reason: "supply exceeds 128 bits".to_owned() });
            }
            match simulator_mint(&mut self.app, &address, initial_balance) {
                Ok(_) => {
                    let mut more = copy_coins(initial_balance);
                    let ghost added = more@;
                    proof {
                        assert(added.len() == asked.len());
                        assert forall|k: int| 0 <= k < asked.len() implies (#[trigger] added[k]).deep_view()
                            == asked[k] by {
                            assert(more.deep_view()[k] == added[k].deep_view());
                        }
                    }
                    self.minted.append(&mut more);
                    proof {
                        assert(self.minted.deep_view() =~= held + asked);
                        assert forall|denom: Seq<char>|
                            amount_of(held + asked, denom) == amount_of(held, denom) + amount_of(
                                asked,
                                denom,
                            ) by {
                            lemma_amount_concat(held, asked, denom);
                        }
                    }
                },
                Err(reason) => {
                    return Err(AccountError::Mint { reason });
                },
            }
        } else {
            proof {
                assert(asked =~= Seq::<CoinView>::empty());
                assert(held + asked =~= held);
                assert forall|denom: Seq<char>| #[trigger] amount_of(asked, denom) == 0 by {
                    lemma_amount_absent(asked, denom);
                }
            }
        }
        Ok(Account { address, signing_key })
    }

    /// Executes a batch of canonical messages as one unit under the signer
    /// with the address `signer` and folds what the simulator reports into
    /// one result. Gas is not metered. An accepted batch gives the aggregate
    /// of one sub-result for each message; a batch without messages is always
    /// accepted, with no events and no response bytes, and leaves the
    /// simulator as it was; so does a batch that the simulator refuses.
    pub fn execute_cosmos_msgs(&mut self, msgs: &Vec<CanonicalMessage>, signer: &String) -> (r:
        Result<ExecutionResult, ExecutionError>)
        requires
            old(self).within_supply(),
        ensures
            final(self).within_supply(),
            final(self).address_prefix == old(self).address_prefix,
            final(self).minted == old(self).minted,
            r matches Ok(x) ==> aggregate_of_some(msgs@.len(), x),
            r matches Ok(x) ==> x.gas_wanted == 0 && x.gas_used == 0,
            msgs@.len() == 0 ==> (r matches Ok(x) && x.events@ == Seq::<Event>::empty()
                && x.raw_data@ == Seq::<u8>::empty()),
            msgs@.len() == 0 || r is Err ==> final(self).app == old(self).app,
    {
        let batch = simulator_messages(msgs);
        let outcome = match simulator_execute(&mut self.app, signer, batch) {
            Ok(responses) => Ok(sub_results(&responses)),
            Err(reason) => Err(reason),
        };
        let ghost answered = outcome;
        let r = conclude(outcome);
        proof {
            if answered is Ok {
                let subs = answered.unwrap()@;
                assert(aggregate_of(subs, r.unwrap()));
                if msgs@.len() == 0 {
                    assert(subs =~= Seq::<SubResult>::empty());
                }
            }
        }
        r
    }

    /// Decodes a batch of tagged messages and executes it as one unit under
    /// the signer with the address `signer`. Where a message does not
    /// decode, the batch is given up with the error of the first such
    /// message and the simulator is not asked. A batch that decodes is
    /// executed as its canonical messages are: an accepted batch gives the
    /// aggregate of one sub-result for each message, a batch without
    /// messages is always accepted, and a refused batch leaves the simulator
    /// as it was.
    pub fn execute_multiple_raw(&mut self, msgs: &Vec<Any>, signer: &String) -> (r: Result<
        ExecutionResult,
        RunnerError,
    >)
        requires
            old(self).within_supply(),
        ensures
            final(self).within_supply(),
            final(self).address_prefix == old(self).address_prefix,
            final(self).minted == old(self).minted,
            decoded_batch(msgs@) matches Err(e) ==> (r matches Err(RunnerError::Decode(d))
                && d.deep_view() == e),
            decoded_batch(msgs@) is Ok ==> !(r matches Err(RunnerError::Decode(_))),
            r matches Ok(x) ==> aggregate_of_some(msgs@.len(), x),
            r matches Ok(x) ==> x.gas_wanted == 0 && x.gas_used == 0,
            msgs@.len() == 0 ==> (r matches Ok(x) && x.events@ == Seq::<Event>::empty()
                && x.raw_data@ == Seq::<u8>::empty()),
            msgs@.len() == 0 || r is Err ==> final(self).app == old(self).app,
    {
        match decode_messages(msgs) {
            Err(e) => Err(RunnerError::Decode(e)),
            Ok(batch) => {
                assert(batch@.len() == msgs@.len()) by {
                    lemma_batch_elementwise(msgs@);
                    assert(decoded_batch(msgs@) == Ok::<Seq<MessageView>, DecodeErrorView>(
                        batch.deep_view(),
                    ));
                    assert(batch@.len() == batch.deep_view().len());
                }
                match self.execute_cosmos_msgs(&batch, signer) {
                    Ok(x) => Ok(x),
                    Err(e) => Err(RunnerError::Execution(e)),
                }
            },
        }
    }

    /// Executes one tagged message: a batch of one.
    pub fn execute_raw(&mut self, msg: Any, signer: &String) -> (r: Result<
        ExecutionResult,
        RunnerError,
    >)
        requires
            old(self).within_supply(),
        ensures
            final(self).within_supply(),
            final(self).address_prefix == old(self).address_prefix,
            final(self).minted == old(self).minted,
            decoded(msg.type_url@, msg.value@) matches Err(e) ==> (r matches Err(
                RunnerError::Decode(d),
            ) && d.deep_view() == e),
            decoded(msg.type_url@, msg.value@) is Ok ==> !(r matches Err(RunnerError::Decode(_))),
            r matches Ok(x) ==> aggregate_of_some(1, x),
            r matches Ok(x) ==> x.gas_wanted == 0 && x.gas_used == 0,
            r is Err ==> final(self).app == old(self).app,
    {
        let mut batch: Vec<Any> = Vec::new();
        batch.push(msg);
        proof {
            assert(batch@ =~= seq![msg]);
            lemma_batch_of_one(msg);
        }
        self.execute_multiple_raw(&batch, signer)
    }

    /// Answers a query from the simulator's state, which it does not change.
    /// The two balance queries of the bank are decoded here, answered by the
    /// simulator's bank, and the response is written as JSON. Every other
    /// path is handed with the request bytes as they are to the simulator's
    /// handler for protocol queries. A failure is surfaced at once, with the
    /// simulator's words.
    pub fn query(&self, path: &str, request: &Vec<u8>) -> (r: Result<Vec<u8>, QueryError>)
        ensures
            query_answered(path@, request@, r),
    {
        let outcome = if path_is(path, QUERY_ALL_BALANCES) {
            match decode_all_balances_request(request) {
                None => malformed_request(),
                Some(address) => match simulator_all_balances(&self.app, &address) {
                    Err(reason) => Err(reason),
                    Ok(balances) => match encode_all_balances_response(&balances) {
                        Some(bytes) => Ok(bytes),
                        None => unwritable_response(),
                    },
                },
            }
        } else if path_is(path, QUERY_BALANCE) {
            match decode_balance_request(request) {
                None => malformed_request(),
                Some((address, denom)) => match simulator_balance(&self.app, &address, &denom) {
                    Err(reason) => Err(reason),
                    Ok(balance) => match encode_balance_response(&balance) {
                        Some(bytes) => Ok(bytes),
                        None => unwritable_response(),
                    },
                },
            }
        } else {
            simulator_query(&self.app, path, request)
        };
        answer(outcome)
    }
}

} // verus!
