use multisig::ledger::{approve_tx, create_tx, execute, instantiate, send_fund, Multisig};
use multisig::query::{query, query_signatories, query_threshold, query_tx, QueryResponse};
use multisig::types::{Asset, ContractError, CreateTxInfo, ExecuteMsg, InstantiateMsg, QueryMsg};

const SENDING_AMOUNT: u128 = 1;
const THRESHOLD: u128 = 2;
const SENDING_AMOUNT_DENOM: &str = "ATOM";

const OWNER: &str = "owner";
const SIGNER1: &str = "signer-1";
const SIGNER2: &str = "signer-2";

fn s(x: &str) -> String {
    x.to_string()
}

fn return_signatories() -> Vec<String> {
    vec![s(OWNER), s(SIGNER2), s(SIGNER1)]
}

fn coin(amount: u128, denom: &str) -> Asset {
    Asset { denom: s(denom), amount }
}

fn return_app_with(threshold: u128) -> Multisig {
    let mut state = Multisig::new();
    instantiate(
        &mut state,
        s(OWNER),
        InstantiateMsg { signatories: return_signatories(), threshold },
    )
    .unwrap();
    state
}

fn return_app() -> Multisig {
    return_app_with(THRESHOLD)
}

fn sample_tx() -> CreateTxInfo {
    CreateTxInfo { to: s(SIGNER1), value: coin(SENDING_AMOUNT, SENDING_AMOUNT_DENOM) }
}

#[test]
fn it_can_instantiate() {
    let state = return_app();
    let resp = query_threshold(&state).unwrap();
    assert_eq!(resp, 2);
    let resp = query_signatories(&state).unwrap();
    assert_eq!(resp, return_signatories());
}

#[test]
fn it_can_create_tx() {
    let mut state = return_app();
    create_tx(&mut state, &s(OWNER), sample_tx()).unwrap();
    let resp = query_tx(&state, 0).unwrap().unwrap();
    assert_eq!(resp.value, coin(SENDING_AMOUNT, SENDING_AMOUNT_DENOM));
    assert_eq!(resp.to, SIGNER1);
    assert_eq!(resp.approval_count, 0);
    assert_eq!(resp.approvals.len(), 0);
}

#[test]
fn it_can_approve_tx() {
    let mut state = return_app();
    create_tx(&mut state, &s(OWNER), sample_tx()).unwrap();
    approve_tx(&mut state, &s(OWNER), 0).unwrap();
    approve_tx(&mut state, &s(SIGNER2), 0).unwrap();
    let resp = query_tx(&state, 0).unwrap().unwrap();
    assert_eq!(resp.approval_count, 2);
    assert_eq!(resp.approvals.len(), 2);
    assert_eq!(resp.approvals, vec![s(OWNER), s(SIGNER2)]);
}

#[test]
fn it_can_send_funds() {
    let mut state = return_app();
    create_tx(&mut state, &s(OWNER), sample_tx()).unwrap();
    approve_tx(&mut state, &s(OWNER), 0).unwrap();
    approve_tx(&mut state, &s(SIGNER2), 0).unwrap();
    let transfer = send_fund(&mut state, &s(OWNER), 0).unwrap();
    let resp = query_tx(&state, 0).unwrap().unwrap();
    assert!(resp.completed);
    assert_eq!(transfer.to, resp.to);
    assert_eq!(transfer.amount.denom, SENDING_AMOUNT_DENOM);
    assert_eq!(transfer.amount.amount, 1);
}

#[test]
fn ids_are_sequential_across_other_activity() {
    let mut state = return_app_with(1);
    assert_eq!(create_tx(&mut state, &s(OWNER), sample_tx()), Ok(0));
    approve_tx(&mut state, &s(SIGNER1), 0).unwrap();
    assert_eq!(create_tx(&mut state, &s(OWNER), sample_tx()), Ok(1));
    send_fund(&mut state, &s(OWNER), 0).unwrap();
    assert_eq!(create_tx(&mut state, &s(OWNER), sample_tx()), Ok(2));
    for i in 0..3usize {
        assert_eq!(query_tx(&state, i).unwrap().unwrap().id, i as u128);
    }
    assert_eq!(state.tx_count(), 3);
}

#[test]
fn second_approval_by_same_signatory_is_refused() {
    let mut state = return_app();
    create_tx(&mut state, &s(OWNER), sample_tx()).unwrap();
    approve_tx(&mut state, &s(SIGNER1), 0).unwrap();
    assert_eq!(approve_tx(&mut state, &s(SIGNER1), 0), Err(ContractError::AlreadyApproved));
    let t = query_tx(&state, 0).unwrap().unwrap();
    assert_eq!(t.approval_count, 1);
    assert_eq!(t.approvals, vec![s(SIGNER1)]);
}

#[test]
fn finalize_needs_exact_threshold() {
    let mut state = return_app();
    create_tx(&mut state, &s(OWNER), sample_tx()).unwrap();
    assert_eq!(send_fund(&mut state, &s(OWNER), 0), Err(ContractError::ThresholdNotMet));
    approve_tx(&mut state, &s(SIGNER1), 0).unwrap();
    assert_eq!(send_fund(&mut state, &s(OWNER), 0), Err(ContractError::ThresholdNotMet));
    approve_tx(&mut state, &s(SIGNER2), 0).unwrap();
    approve_tx(&mut state, &s(OWNER), 0).unwrap();
    // three approvals against a threshold of two
    assert_eq!(send_fund(&mut state, &s(OWNER), 0), Err(ContractError::ThresholdNotMet));
    assert!(!query_tx(&state, 0).unwrap().unwrap().completed);
}

#[test]
fn finalize_succeeds_once() {
    let mut state = return_app();
    create_tx(&mut state, &s(OWNER), sample_tx()).unwrap();
    approve_tx(&mut state, &s(SIGNER1), 0).unwrap();
    approve_tx(&mut state, &s(SIGNER2), 0).unwrap();
    assert!(send_fund(&mut state, &s(OWNER), 0).is_ok());
    assert_eq!(send_fund(&mut state, &s(OWNER), 0), Err(ContractError::AlreadyCompleted));
}

#[test]
fn roles_gate_each_operation() {
    let mut state = Multisig::new();
    instantiate(
        &mut state,
        s(OWNER),
        InstantiateMsg { signatories: vec![s(SIGNER1), s(SIGNER2)], threshold: 1 },
    )
    .unwrap();
    assert_eq!(create_tx(&mut state, &s(SIGNER1), sample_tx()), Err(ContractError::Unauthorized));
    assert_eq!(state.tx_count(), 0);
    create_tx(&mut state, &s(OWNER), sample_tx()).unwrap();
    // the owner is not listed as a signatory here
    assert_eq!(approve_tx(&mut state, &s(OWNER), 0), Err(ContractError::Unauthorized));
    assert_eq!(approve_tx(&mut state, &s("stranger"), 0), Err(ContractError::Unauthorized));
    approve_tx(&mut state, &s(SIGNER2), 0).unwrap();
    assert_eq!(send_fund(&mut state, &s(SIGNER2), 0), Err(ContractError::Unauthorized));
    assert!(send_fund(&mut state, &s(OWNER), 0).is_ok());
}

#[test]
fn end_to_end_payout() {
    let mut state = return_app();
    assert_eq!(create_tx(&mut state, &s(OWNER), sample_tx()), Ok(0));
    approve_tx(&mut state, &s(OWNER), 0).unwrap();
    assert_eq!(query_tx(&state, 0).unwrap().unwrap().approval_count, 1);
    approve_tx(&mut state, &s(SIGNER2), 0).unwrap();
    assert_eq!(query_tx(&state, 0).unwrap().unwrap().approval_count, 2);
    let transfer = send_fund(&mut state, &s(OWNER), 0).unwrap();
    assert_eq!(transfer.to, s(SIGNER1));
    assert_eq!(transfer.amount, coin(1, "ATOM"));
    assert!(query_tx(&state, 0).unwrap().unwrap().completed);
    assert_eq!(send_fund(&mut state, &s(OWNER), 0), Err(ContractError::AlreadyCompleted));
}

#[test]
fn zero_threshold_finalizes_without_approvals() {
    let mut state = return_app_with(0);
    let id = create_tx(&mut state, &s(OWNER), sample_tx()).unwrap();
    let transfer = send_fund(&mut state, &s(OWNER), id as usize).unwrap();
    assert_eq!(transfer.to, s(SIGNER1));
    assert!(query_tx(&state, 0).unwrap().unwrap().completed);
}

#[test]
fn unknown_id_is_not_found() {
    let mut state = return_app();
    assert_eq!(approve_tx(&mut state, &s(SIGNER1), 0), Err(ContractError::NotFound));
    assert_eq!(send_fund(&mut state, &s(OWNER), 0), Err(ContractError::NotFound));
    create_tx(&mut state, &s(OWNER), sample_tx()).unwrap();
    assert_eq!(approve_tx(&mut state, &s(SIGNER1), 1), Err(ContractError::NotFound));
    assert_eq!(query_tx(&state, 1), Ok(None));
}

#[test]
fn uninitialized_ledger_refuses_everything() {
    let mut state = Multisig::new();
    assert_eq!(create_tx(&mut state, &s(OWNER), sample_tx()), Err(ContractError::NotInitialized));
    assert_eq!(approve_tx(&mut state, &s(OWNER), 0), Err(ContractError::NotInitialized));
    assert_eq!(send_fund(&mut state, &s(OWNER), 0), Err(ContractError::NotInitialized));
    assert_eq!(query_threshold(&state), Err(ContractError::NotInitialized));
    assert_eq!(query_signatories(&state), Err(ContractError::NotInitialized));
    assert_eq!(query_tx(&state, 0), Err(ContractError::NotInitialized));
    assert!(state.config().is_none());
}

#[test]
fn second_instantiate_is_refused() {
    let mut state = return_app();
    let again = instantiate(
        &mut state,
        s(SIGNER1),
        InstantiateMsg { signatories: vec![s(SIGNER1)], threshold: 7 },
    );
    assert_eq!(again, Err(ContractError::AlreadyInitialized));
    assert_eq!(state.config().unwrap().owner, s(OWNER));
    assert_eq!(query_threshold(&state), Ok(2));
}

#[test]
fn execute_dispatches_requests() {
    let mut state = return_app();
    let created = execute(&mut state, &s(OWNER), ExecuteMsg::CreateTx { tx: sample_tx() });
    assert_eq!(created, Ok(None));
    assert_eq!(execute(&mut state, &s(SIGNER1), ExecuteMsg::ApproveTx { id: 0 }), Ok(None));
    assert_eq!(execute(&mut state, &s(SIGNER2), ExecuteMsg::ApproveTx { id: 0 }), Ok(None));
    let sent = execute(&mut state, &s(OWNER), ExecuteMsg::SendFund { id: 0 }).unwrap().unwrap();
    assert_eq!(sent.to, s(SIGNER1));
    assert_eq!(
        execute(&mut state, &s(OWNER), ExecuteMsg::SendFund { id: 0 }),
        Err(ContractError::AlreadyCompleted)
    );
}

#[test]
fn query_dispatches_requests() {
    let mut state = return_app();
    create_tx(&mut state, &s(OWNER), sample_tx()).unwrap();
    assert_eq!(query(&state, QueryMsg::GetThresold {}), Ok(QueryResponse::Threshold(2)));
    assert_eq!(
        query(&state, QueryMsg::GetSignatories {}),
        Ok(QueryResponse::Signatories(return_signatories()))
    );
    match query(&state, QueryMsg::GetTx { id: 0 }) {
        Ok(QueryResponse::Tx(Some(t))) => assert_eq!(t.to, s(SIGNER1)),
        other => panic!("unexpected answer {:?}", other),
    }
    assert_eq!(query(&state, QueryMsg::GetTx { id: 1 }), Ok(QueryResponse::Tx(None)));
    assert_eq!(query(&state, QueryMsg::GetTx { id: u128::MAX }), Ok(QueryResponse::Tx(None)));
    assert_eq!(query(&Multisig::new(), QueryMsg::GetThresold {}), Err(ContractError::NotInitialized));
}

#[test]
fn restore_checks_the_stored_parts() {
    let mut state = return_app();
    create_tx(&mut state, &s(OWNER), sample_tx()).unwrap();
    approve_tx(&mut state, &s(SIGNER1), 0).unwrap();
    let (config, txs) = state.into_parts();
    let back = Multisig::restore(config.clone(), txs.clone()).unwrap();
    assert_eq!(query_tx(&back, 0).unwrap().unwrap().approvals, vec![s(SIGNER1)]);

    let mut bad_id = txs.clone();
    bad_id[0].id = 5;
    assert!(Multisig::restore(config.clone(), bad_id).is_none());

    let mut bad_count = txs.clone();
    bad_count[0].approval_count = 2;
    assert!(Multisig::restore(config.clone(), bad_count).is_none());

    let mut twice = txs.clone();
    twice[0].approvals.push(s(SIGNER1));
    twice[0].approval_count = 2;
    assert!(Multisig::restore(config, twice).is_none());

    assert!(Multisig::restore(None, txs).is_none());
    assert!(Multisig::restore(None, vec![]).is_some());
}
