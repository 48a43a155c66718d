use cosmwasm_std::{Binary, Deps, DepsMut, Empty, Env, MessageInfo, Response, StdError};
use cw_it::artifact::{in_memory_contract, ContractType};
use cw_it::decode::MSG_SEND;
use cw_it::engine::QueryError;
use cw_it::message::{amount_in, copy_coins, Any, CanonicalMessage, Coin, DecodeError};
use cw_it::response::{Event, ExecutionError};
use cw_it::runner::{
    Account, AccountError, MultiTestRunner, RunnerError, QUERY_ALL_BALANCES, QUERY_BALANCE,
};
use cw_multi_test::{Contract, ContractWrapper};
use osmosis_std::types::cosmos::bank::v1beta1::{
    MsgSend, QueryAllBalancesRequest, QueryAllBalancesResponse, QueryBalanceRequest,
    QueryBalanceResponse,
};
use osmosis_std::types::cosmos::base::v1beta1::Coin as WireCoin;
use prost::Message;

fn coin(amount: u128, denom: &str) -> Coin {
    Coin { denom: denom.to_string(), amount }
}

fn balance(app: &MultiTestRunner, account: &Account, denom: &str) -> u128 {
    app.app.wrap().query_balance(account.address.clone(), denom).unwrap().amount.u128()
}

fn send(to: &Account, amount: u128, denom: &str) -> CanonicalMessage {
    CanonicalMessage::Send { to_address: to.address.clone(), amount: vec![coin(amount, denom)] }
}

fn instantiate(_: DepsMut, _: Env, _: MessageInfo, _: Empty) -> Result<Response, StdError> {
    Ok(Response::default())
}

fn execute(_: DepsMut, _: Env, _: MessageInfo, _: Empty) -> Result<Response, StdError> {
    Ok(Response::default())
}

fn query(_: Deps, _: Env, _: Empty) -> Result<Binary, StdError> {
    Err(StdError::generic_err("query not implemented for the `test_contract` contract"))
}

fn test_contract() -> Box<dyn Contract<Empty>> {
    Box::new(ContractWrapper::new_with_empty(execute, instantiate, query))
}

#[test]
fn upload_contract() {
    let contract = ContractType::MultiTestContract(test_contract());

    let mut app = MultiTestRunner::new("osmo");
    let _alice = app.init_account(&vec![coin(1000, "uosmo")]).unwrap();

    let contract = match in_memory_contract(contract) {
        Ok(contract) => contract,
        Err(e) => panic!("{}", e.message()),
    };
    let code_id = app.app.store_code(contract);

    assert_eq!(code_id, 1);
}

#[test]
fn second_upload_gets_the_next_id() {
    let mut app = MultiTestRunner::new("osmo");
    assert_eq!(app.app.store_code(test_contract()), 1);
    assert_eq!(app.app.store_code(test_contract()), 2);
}

#[test]
fn bank_send() {
    let mut app = MultiTestRunner::new("osmo");
    let alice = app.init_account(&vec![coin(1000, "uatom")]).unwrap();
    let bob = app.init_account(&vec![]).unwrap();

    let msgs = vec![CanonicalMessage::Send {
        to_address: bob.address.clone(),
        amount: vec![Coin { denom: "uatom".to_string(), amount: 100u128 }],
    }];

    let res = app.execute_cosmos_msgs(&msgs, &alice.address).unwrap();

    assert_eq!(res.events.len(), 1);
    assert_eq!(
        res.events[0],
        Event {
            ty: "transfer".to_string(),
            attributes: vec![
                ("recipient".to_string(), bob.address.clone()),
                ("sender".to_string(), alice.address.clone()),
                ("amount".to_string(), "100uatom".to_string()),
            ],
        }
    );
    assert_eq!(res.gas_wanted, 0);
    assert_eq!(res.gas_used, 0);
    assert_eq!(res.raw_data, Vec::<u8>::new());
}

#[test]
fn funding_and_transfer() {
    let mut app = MultiTestRunner::new("osmo");
    let alice = app.init_account(&vec![coin(1000, "uatom")]).unwrap();
    let bob = app.init_account(&vec![]).unwrap();
    assert_eq!(balance(&app, &alice, "uatom"), 1000);
    assert_eq!(balance(&app, &bob, "uatom"), 0);

    app.execute_cosmos_msgs(&vec![send(&bob, 100, "uatom")], &alice.address).unwrap();
    assert_eq!(balance(&app, &alice, "uatom"), 900);
    assert_eq!(balance(&app, &bob, "uatom"), 100);
}

#[test]
fn accounts_are_distinct_and_prefixed() {
    let mut app = MultiTestRunner::new("osmo");
    let a = app.init_account(&vec![]).unwrap();
    let b = app.init_account(&vec![]).unwrap();
    assert_ne!(a.address, b.address);
    assert!(a.address.starts_with("osmo1"));
    assert!(b.address.starts_with("osmo1"));
    assert_eq!(app.address_prefix, "osmo");
}

#[test]
fn rejected_batch_leaves_no_trace() {
    let mut app = MultiTestRunner::new("osmo");
    let alice = app.init_account(&vec![coin(1000, "uatom")]).unwrap();
    let bob = app.init_account(&vec![]).unwrap();

    let batch = vec![send(&bob, 100, "uatom"), send(&bob, 5000, "uatom")];
    let res = app.execute_cosmos_msgs(&batch, &alice.address);
    assert!(matches!(res, Err(ExecutionError::Rejected { .. })));
    assert_eq!(balance(&app, &alice, "uatom"), 1000);
    assert_eq!(balance(&app, &bob, "uatom"), 0);
}

#[test]
fn empty_batch_through_the_simulator() {
    let mut app = MultiTestRunner::new("osmo");
    let alice = app.init_account(&vec![]).unwrap();
    let res = app.execute_cosmos_msgs(&vec![], &alice.address).unwrap();
    assert_eq!(res.events, vec![]);
    assert_eq!(res.raw_data, Vec::<u8>::new());
    assert_eq!(res.gas_wanted, 0);
    assert_eq!(res.gas_used, 0);
}

#[test]
fn events_of_a_batch_are_in_submission_order() {
    let mut app = MultiTestRunner::new("osmo");
    let alice = app.init_account(&vec![coin(1000, "uatom")]).unwrap();
    let bob = app.init_account(&vec![]).unwrap();
    let batch = vec![send(&bob, 1, "uatom"), send(&bob, 2, "uatom")];
    let res = app.execute_cosmos_msgs(&batch, &alice.address).unwrap();
    assert_eq!(res.events.len(), 2);
    assert_eq!(res.events[0].attributes[2], ("amount".to_string(), "1uatom".to_string()));
    assert_eq!(res.events[1].attributes[2], ("amount".to_string(), "2uatom".to_string()));
}

#[test]
fn tagged_send_is_decoded_and_executed() {
    let mut app = MultiTestRunner::new("osmo");
    let alice = app.init_account(&vec![coin(1000, "uatom")]).unwrap();
    let bob = app.init_account(&vec![]).unwrap();
    let msg = MsgSend {
        from_address: alice.address.clone(),
        to_address: bob.address.clone(),
        amount: vec![WireCoin { denom: "uatom".to_string(), amount: "250".to_string() }],
    };
    let any = Any { type_url: MSG_SEND.to_string(), value: msg.encode_to_vec() };
    let res = app.execute_multiple_raw(&vec![any.clone()], &alice.address).unwrap();
    assert_eq!(res.events.len(), 1);
    assert_eq!(res.events[0].ty, "transfer");
    assert_eq!(balance(&app, &bob, "uatom"), 250);

    app.execute_raw(any, &alice.address).unwrap();
    assert_eq!(balance(&app, &bob, "uatom"), 500);
    assert_eq!(balance(&app, &alice, "uatom"), 500);
}

#[test]
fn undecodable_batch_never_reaches_the_simulator() {
    let mut app = MultiTestRunner::new("osmo");
    let alice = app.init_account(&vec![coin(1000, "uatom")]).unwrap();
    let bob = app.init_account(&vec![]).unwrap();
    let good = MsgSend {
        from_address: alice.address.clone(),
        to_address: bob.address.clone(),
        amount: vec![WireCoin { denom: "uatom".to_string(), amount: "250".to_string() }],
    };
    let batch = vec![
        Any { type_url: MSG_SEND.to_string(), value: good.encode_to_vec() },
        Any { type_url: MSG_SEND.to_string(), value: vec![0xff, 0xff] },
    ];
    assert_eq!(
        app.execute_multiple_raw(&batch, &alice.address),
        Err(RunnerError::Decode(DecodeError::Malformed { type_tag: MSG_SEND.to_string() }))
    );
    assert_eq!(balance(&app, &alice, "uatom"), 1000);
}

#[test]
fn unknown_tag_is_the_simulators_to_judge() {
    let mut app = MultiTestRunner::new("osmo");
    let alice = app.init_account(&vec![]).unwrap();
    let any = Any { type_url: "/cosmos.gov.v1beta1.MsgVote".to_string(), value: vec![1, 2, 3] };
    let res = app.execute_multiple_raw(&vec![any], &alice.address);
    assert!(matches!(res, Err(RunnerError::Execution(ExecutionError::Rejected { .. }))));
}

#[test]
fn failed_query_is_surfaced() {
    let app = MultiTestRunner::new("osmo");
    let res = app.query("/cosmos.gov.v1beta1.Query/Proposals", &vec![]);
    assert!(matches!(res, Err(QueryError::Generic { .. })));
    let res = app.query(QUERY_ALL_BALANCES, &vec![0xff, 0xff]);
    assert!(matches!(res, Err(QueryError::Generic { .. })));
    let res = app.query(QUERY_BALANCE, &vec![0x0a]);
    assert!(matches!(res, Err(QueryError::Generic { .. })));
}

fn all_balances(app: &MultiTestRunner, address: &str) -> QueryAllBalancesResponse {
    let request = QueryAllBalancesRequest {
        address: address.to_string(),
        pagination: None,
        resolve_denom: false,
    };
    let bytes = app.query(QUERY_ALL_BALANCES, &request.encode_to_vec()).unwrap();
    cosmwasm_std::from_json(&bytes).unwrap()
}

fn queried_balance(app: &MultiTestRunner, address: &str, denom: &str) -> String {
    let request = QueryBalanceRequest { address: address.to_string(), denom: denom.to_string() };
    let bytes = app.query(QUERY_BALANCE, &request.encode_to_vec()).unwrap();
    let res: QueryBalanceResponse = cosmwasm_std::from_json(&bytes).unwrap();
    let balance = res.balance.unwrap();
    assert_eq!(balance.denom, denom);
    balance.amount
}

#[test]
fn query_bank_through_test_tube_bank_module() {
    let mut app = MultiTestRunner::new("osmo");
    let alice = app.init_account(&vec![coin(1000, "uatom")]).unwrap();

    let res = all_balances(&app, &alice.address);

    assert_eq!(res.balances.len(), 1);
    assert_eq!(res.balances[0].denom, "uatom".to_string());
    assert_eq!(res.balances[0].amount, "1000");
}

#[test]
fn funded_balance_is_queried_before_and_after_a_transfer() {
    let mut app = MultiTestRunner::new("osmo");
    let alice = app.init_account(&vec![coin(1000, "uatom")]).unwrap();
    let bob = app.init_account(&vec![]).unwrap();
    assert_eq!(queried_balance(&app, &alice.address, "uatom"), "1000");
    assert_eq!(queried_balance(&app, &bob.address, "uatom"), "0");
    assert_eq!(all_balances(&app, &bob.address).balances.len(), 0);

    app.execute_cosmos_msgs(&vec![send(&bob, 100, "uatom")], &alice.address).unwrap();
    assert_eq!(queried_balance(&app, &alice.address, "uatom"), "900");
    assert_eq!(queried_balance(&app, &bob.address, "uatom"), "100");
    let of_bob = all_balances(&app, &bob.address);
    assert_eq!(of_bob.balances.len(), 1);
    assert_eq!(of_bob.balances[0].amount, "100");
}

fn minted(app: &MultiTestRunner, denom: &str) -> Option<u128> {
    amount_in(&app.minted, &denom.to_string())
}

#[test]
fn supply_beyond_128_bits_is_refused() {
    let mut app = MultiTestRunner::new("osmo");
    let res = app.init_account(&vec![coin(u128::MAX, "uatom"), coin(1, "uatom")]);
    assert!(matches!(res, Err(AccountError::Mint { .. })));
    assert_eq!(minted(&app, "uatom"), Some(0));

    let alice = app.init_account(&vec![coin(u128::MAX, "uatom")]).unwrap();
    assert_eq!(minted(&app, "uatom"), Some(u128::MAX));
    let res = app.init_account(&vec![coin(u128::MAX, "uatom")]);
    assert!(matches!(res, Err(AccountError::Mint { .. })));
    let res = app.init_account(&vec![coin(1, "uosmo"), coin(1, "uatom")]);
    assert!(matches!(res, Err(AccountError::Mint { .. })));
    assert_eq!(minted(&app, "uosmo"), Some(0));
    let bob = app.init_account(&vec![]).unwrap();
    app.execute_cosmos_msgs(&vec![send(&bob, 1, "uatom")], &alice.address).unwrap();
    assert_eq!(balance(&app, &alice, "uatom"), u128::MAX - 1);
    assert_eq!(balance(&app, &bob, "uatom"), 1);
}

#[test]
fn each_denomination_has_its_own_limit() {
    let mut app = MultiTestRunner::new("osmo");
    let alice = app.init_account(&vec![coin(u128::MAX, "a"), coin(1, "b")]).unwrap();
    assert_eq!(balance(&app, &alice, "a"), u128::MAX);
    assert_eq!(balance(&app, &alice, "b"), 1);
    assert_eq!(balance(&app, &alice, "c"), 0);
    let bob = app.init_account(&vec![coin(u128::MAX - 1, "b"), coin(u128::MAX, "c")]).unwrap();
    assert_eq!(balance(&app, &bob, "b"), u128::MAX - 1);
    assert_eq!(balance(&app, &bob, "c"), u128::MAX);
    assert_eq!(balance(&app, &alice, "b"), 1);
    assert_eq!(minted(&app, "a"), Some(u128::MAX));
    assert_eq!(minted(&app, "b"), Some(u128::MAX));
    assert_eq!(minted(&app, "c"), Some(u128::MAX));
    for denom in ["a", "b", "c"] {
        let res = app.init_account(&vec![coin(1, denom)]);
        assert!(matches!(res, Err(AccountError::Mint { .. })));
    }
    app.init_account(&vec![coin(7, "d")]).unwrap();
    app.execute_cosmos_msgs(&vec![send(&alice, u128::MAX - 1, "b")], &bob.address).unwrap();
    assert_eq!(balance(&app, &alice, "b"), u128::MAX);
    assert_eq!(balance(&app, &bob, "b"), 0);
}

#[test]
fn funding_gives_exactly_the_requested_balances() {
    let mut app = MultiTestRunner::new("osmo");
    let other = app.init_account(&vec![coin(5, "uatom")]).unwrap();
    let alice = app.init_account(&vec![coin(1000, "uatom"), coin(3, "uosmo")]).unwrap();
    assert_eq!(balance(&app, &alice, "uatom"), 1000);
    assert_eq!(balance(&app, &alice, "uosmo"), 3);
    assert_eq!(balance(&app, &alice, "ujuno"), 0);
    assert_eq!(balance(&app, &other, "uatom"), 5);
    assert_eq!(balance(&app, &other, "uosmo"), 0);
    assert_eq!(minted(&app, "uatom"), Some(1005));
    assert_eq!(minted(&app, "uosmo"), Some(3));
}

#[test]
fn refused_mint_is_not_counted() {
    let mut app = MultiTestRunner::new("osmo");
    let res = app.init_account(&vec![coin(0, "uatom")]);
    assert!(matches!(res, Err(AccountError::Mint { .. })));
    assert_eq!(app.minted, vec![]);
    app.init_account(&vec![coin(5, "uatom"), coin(6, "uosmo")]).unwrap();
    assert_eq!(app.minted, vec![coin(5, "uatom"), coin(6, "uosmo")]);
}

#[test]
fn coins_of_one_denomination_are_counted_together() {
    let coins = vec![coin(1, "a"), coin(2, "b"), coin(3, "a"), coin(u128::MAX - 2, "b")];
    assert_eq!(amount_in(&coins, &"a".to_string()), Some(4));
    assert_eq!(amount_in(&coins, &"b".to_string()), Some(u128::MAX));
    assert_eq!(amount_in(&coins, &"c".to_string()), Some(0));
    assert_eq!(amount_in(&vec![], &"a".to_string()), Some(0));
    let over = vec![coin(u128::MAX, "a"), coin(5, "b"), coin(1, "a")];
    assert_eq!(amount_in(&over, &"a".to_string()), None);
    assert_eq!(amount_in(&over, &"b".to_string()), Some(5));
    assert_eq!(copy_coins(&coins), coins);
}

#[test]
fn empty_tagged_batch() {
    let mut app = MultiTestRunner::new("osmo");
    let alice = app.init_account(&vec![coin(10, "uatom")]).unwrap();
    let res = app.execute_multiple_raw(&vec![], &alice.address).unwrap();
    assert_eq!(res.events, vec![]);
    assert_eq!(res.raw_data, Vec::<u8>::new());
    assert_eq!(res.gas_wanted, 0);
    assert_eq!(res.gas_used, 0);
    assert_eq!(balance(&app, &alice, "uatom"), 10);
}

fn instantiate_counter(app: &mut MultiTestRunner, owner: &Account) -> String {
    let code_id = app.app.store_code(test_contract());
    let msgs = vec![CanonicalMessage::Instantiate {
        code_id,
        admin: Some(owner.address.clone()),
        msg: b"{}".to_vec(),
        funds: vec![],
        label: "counter".to_string(),
    }];
    let res = app.execute_cosmos_msgs(&msgs, &owner.address).unwrap();
    assert_eq!(res.events.len(), 1);
    assert_eq!(res.events[0].ty, "instantiate".to_string());
    assert_eq!(res.events[0].attributes[0].0, "_contract_address");
    assert!(!res.raw_data.is_empty());
    res.events[0].attributes[0].1.clone()
}

#[test]
fn contract_lifecycle_through_the_simulator() {
    let mut app = MultiTestRunner::new("osmo");
    let alice = app.init_account(&vec![coin(1000, "uosmo")]).unwrap();
    let bob = app.init_account(&vec![]).unwrap();
    let contract = instantiate_counter(&mut app, &alice);
    assert!(contract.starts_with("osmo1"));

    let call = CanonicalMessage::Execute {
        contract_addr: contract.clone(),
        msg: b"{}".to_vec(),
        funds: vec![coin(10, "uosmo")],
    };
    let res = app.execute_cosmos_msgs(&vec![call], &alice.address).unwrap();
    assert_eq!(res.events[0].ty, "execute");
    assert_eq!(balance(&app, &alice, "uosmo"), 990);

    let hand_over = CanonicalMessage::UpdateAdmin {
        contract_addr: contract.clone(),
        admin: bob.address.clone(),
    };
    app.execute_cosmos_msgs(&vec![hand_over], &alice.address).unwrap();

    let clear = CanonicalMessage::ClearAdmin { contract_addr: contract.clone() };
    let by_old_admin = app.execute_cosmos_msgs(&vec![clear.clone()], &alice.address);
    assert!(matches!(by_old_admin, Err(ExecutionError::Rejected { .. })));
    app.execute_cosmos_msgs(&vec![clear], &bob.address).unwrap();

    let migrate = CanonicalMessage::Migrate {
        contract_addr: contract,
        new_code_id: 1,
        msg: b"{}".to_vec(),
    };
    let res = app.execute_cosmos_msgs(&vec![migrate], &bob.address);
    assert!(matches!(res, Err(ExecutionError::Rejected { .. })));
}

#[test]
fn response_of_the_last_message_with_a_payload_is_kept() {
    let mut app = MultiTestRunner::new("osmo");
    let alice = app.init_account(&vec![coin(1000, "uosmo")]).unwrap();
    let bob = app.init_account(&vec![]).unwrap();
    let code_id = app.app.store_code(test_contract());
    let instantiate = CanonicalMessage::Instantiate {
        code_id,
        admin: None,
        msg: b"{}".to_vec(),
        funds: vec![],
        label: "counter".to_string(),
    };
    let alone = app.execute_cosmos_msgs(&vec![instantiate.clone()], &alice.address).unwrap();
    let batch = vec![send(&bob, 1, "uosmo"), instantiate, send(&bob, 2, "uosmo")];
    let res = app.execute_cosmos_msgs(&batch, &alice.address).unwrap();
    assert_eq!(res.events.len(), 3);
    assert_eq!(res.events[1].ty, "instantiate");
    assert!(!res.raw_data.is_empty());
    assert_eq!(res.raw_data.len(), alone.raw_data.len());
}

#[test]
fn staking_without_validators_is_rejected() {
    let mut app = MultiTestRunner::new("osmo");
    let alice = app.init_account(&vec![coin(1000, "uosmo")]).unwrap();
    let stake = coin(10, "uosmo");
    let batches = vec![
        CanonicalMessage::Delegate { validator: "osmovaloper1x".to_string(), amount: stake.clone() },
        CanonicalMessage::Undelegate { validator: "osmovaloper1x".to_string(), amount: stake.clone() },
        CanonicalMessage::Redelegate {
            src_validator: "osmovaloper1x".to_string(),
            dst_validator: "osmovaloper1y".to_string(),
            amount: stake,
        },
    ];
    for msg in batches {
        let res = app.execute_cosmos_msgs(&vec![msg], &alice.address);
        assert!(matches!(res, Err(ExecutionError::Rejected { .. })));
    }
    assert_eq!(balance(&app, &alice, "uosmo"), 1000);
}

#[test]
fn prefix_must_be_lowercase_alphanumeric() {
    let mut app = MultiTestRunner::new("Osmo");
    let res = app.init_account(&vec![]);
    assert!(matches!(res, Err(AccountError::KeyGeneration { .. })));
}

#[test]
fn mint_to_a_foreign_address_fails() {
    let mut app = MultiTestRunner::new("osmo");
    app.address_prefix = "cosmos";
    let res = app.init_account(&vec![coin(1000, "uatom")]);
    assert!(matches!(res, Err(AccountError::Mint { .. })));
    let res = app.init_account(&vec![]);
    assert!(res.is_ok());
}

#[test]
fn account_is_created_exactly_under_a_valid_prefix() {
    for prefix in ["osmo", "cosmos", "a", "x9", "123", ""] {
        let mut app = MultiTestRunner::new(prefix);
        let account = app.init_account(&vec![]).unwrap();
        assert!(account.address.starts_with(prefix));
        assert_eq!(account.address.as_bytes()[prefix.len()], b'1');
        assert!(account.address.len() > prefix.len() + 1);
    }
    for prefix in ["Osmo", "OSMO", "os-mo", "osmo ", "os_mo", "osm\u{f6}"] {
        let mut app = MultiTestRunner::new(prefix);
        assert!(matches!(
            app.init_account(&vec![]),
            Err(AccountError::KeyGeneration { .. })
        ));
        assert!(matches!(
            app.init_account(&vec![coin(1, "uatom")]),
            Err(AccountError::KeyGeneration { .. })
        ));
    }
}

#[test]
fn accepted_batch_has_one_event_list_for_each_message() {
    let mut app = MultiTestRunner::new("osmo");
    let alice = app.init_account(&vec![coin(1000, "uatom")]).unwrap();
    let bob = app.init_account(&vec![]).unwrap();
    for n in 0..4u128 {
        let batch: Vec<CanonicalMessage> = (0..n).map(|i| send(&bob, i + 1, "uatom")).collect();
        let res = app.execute_cosmos_msgs(&batch, &alice.address).unwrap();
        assert_eq!(res.events.len(), batch.len());
        assert_eq!(res.raw_data, Vec::<u8>::new());
    }
}
