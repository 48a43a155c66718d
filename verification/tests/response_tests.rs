use cw_it::artifact::{in_memory_contract, Artifact, CodeError, ContractType};
use cw_it::config::{ConfigError, Contract, TestConfig, DEFAULT_PROJECTS_FOLDER};
use cw_it::engine::{answer, conclude, QueryError};
use cw_it::response::{aggregate, Event, ExecutionError, ExecutionResult, SubResult};
use std::collections::HashMap;

fn event(ty: &str, key: &str, value: &str) -> Event {
    Event { ty: ty.to_string(), attributes: vec![(key.to_string(), value.to_string())] }
}

fn sub(events: Vec<Event>, data: Option<Vec<u8>>) -> SubResult {
    SubResult { events, data }
}

#[test]
fn empty_batch() {
    let r = aggregate(vec![]);
    assert_eq!(
        r,
        ExecutionResult { raw_data: vec![], events: vec![], gas_wanted: 0, gas_used: 0 }
    );
}

#[test]
fn last_payload_wins() {
    let subs = vec![
        sub(vec![], None),
        sub(vec![], Some(vec![0xa])),
        sub(vec![], None),
        sub(vec![], Some(vec![0xb, 0xb])),
    ];
    assert_eq!(aggregate(subs).raw_data, vec![0xb, 0xb]);
}

#[test]
fn payload_before_silent_results_is_kept() {
    let subs = vec![sub(vec![], Some(vec![1, 2, 3])), sub(vec![], None), sub(vec![], None)];
    assert_eq!(aggregate(subs).raw_data, vec![1, 2, 3]);
}

#[test]
fn present_but_empty_payload_is_skipped() {
    let subs = vec![sub(vec![], Some(vec![1])), sub(vec![], Some(vec![]))];
    assert_eq!(aggregate(subs).raw_data, vec![1]);
    let subs = vec![sub(vec![], Some(vec![])), sub(vec![], None), sub(vec![], Some(vec![]))];
    assert_eq!(aggregate(subs).raw_data, Vec::<u8>::new());
    let subs = vec![
        sub(vec![], Some(vec![7, 7])),
        sub(vec![], Some(vec![])),
        sub(vec![], Some(vec![9])),
        sub(vec![], Some(vec![])),
    ];
    assert_eq!(aggregate(subs).raw_data, vec![9]);
}

#[test]
fn no_payload_gives_no_bytes() {
    let subs = vec![sub(vec![event("a", "k", "v")], None), sub(vec![], None)];
    let r = aggregate(subs);
    assert_eq!(r.raw_data, Vec::<u8>::new());
    assert_eq!(r.events, vec![event("a", "k", "v")]);
}

#[test]
fn events_keep_submission_order() {
    let subs = vec![
        sub(vec![event("a", "1", "x"), event("b", "2", "y")], None),
        sub(vec![], Some(vec![7])),
        sub(vec![event("c", "3", "z")], None),
        sub(vec![event("a", "1", "x")], None),
    ];
    let r = aggregate(subs);
    assert_eq!(
        r.events,
        vec![event("a", "1", "x"), event("b", "2", "y"), event("c", "3", "z"), event("a", "1", "x")]
    );
    assert_eq!(r.raw_data, vec![7]);
    assert_eq!(r.gas_wanted, 0);
    assert_eq!(r.gas_used, 0);
}

#[test]
fn rejection_carries_the_reason() {
    assert_eq!(
        conclude(Err("insufficient funds".to_string())),
        Err(ExecutionError::Rejected { reason: "insufficient funds".to_string() })
    );
}

#[test]
fn accepted_batch_is_aggregated() {
    let subs = vec![sub(vec![event("transfer", "amount", "100uatom")], Some(vec![5]))];
    assert_eq!(
        conclude(Ok(subs)),
        Ok(ExecutionResult {
            raw_data: vec![5],
            events: vec![event("transfer", "amount", "100uatom")],
            gas_wanted: 0,
            gas_used: 0,
        })
    );
}

#[test]
fn query_answers() {
    assert_eq!(answer(Ok(vec![1, 2])), Ok(vec![1, 2]));
    assert_eq!(
        answer(Err("unknown path".to_string())),
        Err(QueryError::Generic { message: "unknown path".to_string() })
    );
}

#[test]
fn binary_artifact_is_unsupported() {
    let code: ContractType<u8> =
        ContractType::Artifact(Artifact::Local("artifacts/counter.wasm".to_string()));
    assert_eq!(in_memory_contract(code), Err(CodeError::UnsupportedArtifact));
    assert_eq!(
        CodeError::UnsupportedArtifact.message(),
        "Artifact not supported for MultiTestRunner"
    );
}

#[test]
fn in_memory_contract_is_handed_on() {
    let code: ContractType<&str> = ContractType::MultiTestContract("counter");
    assert_eq!(in_memory_contract(code), Ok("counter"));
}

#[test]
fn config_gives_its_contracts() {
    let mut contracts = HashMap::new();
    contracts.insert(
        "counter".to_string(),
        Contract {
            name: "counter".to_string(),
            artifact: Artifact::Local("artifacts/counter.wasm".to_string()),
            chain_address: String::new(),
        },
    );
    let config = TestConfig { contracts };
    assert_eq!(config.contracts().len(), 1);
    assert_eq!(config.contracts()["counter"].name, "counter");
    assert_eq!(
        config.contracts()["counter"].artifact,
        Artifact::Local("artifacts/counter.wasm".to_string())
    );
    assert_eq!(DEFAULT_PROJECTS_FOLDER, "cloned_repos");
}

#[test]
fn config_error_text() {
    assert_eq!(
        ConfigError::QueryError { msg: "timeout".to_string() }.message(),
        "query error: timeout"
    );
    assert_eq!(
        ConfigError::InvalidMnemonic { msg: "too short".to_string() }.message(),
        "invalid mnemonic: too short"
    );
}
