//! The read-only query surface.
use vstd::prelude::*;

use crate::ledger::Multisig;
use crate::types::{copy_principals, copy_tx, principals_view, ContractError, QueryMsg, TX};

verus! {

/// The approval threshold.
pub fn query_threshold(state: &Multisig) -> (r: Result<u128, ContractError>)
    ensures
        match state@.config {
            Some(c) => r == Ok::<u128, ContractError>(c.threshold),
            None => r == Err::<u128, ContractError>(ContractError::NotInitialized),
        },
{
    match state.config() {
        Some(c) => Ok(c.threshold),
        None => Err(ContractError::NotInitialized),
    }
}

/// The signatories, in the order in which they were configured.
pub fn query_signatories(state: &Multisig) -> (r: Result<Vec<String>, ContractError>)
    ensures
        match state@.config {
            Some(c) => r is Ok && principals_view(r->Ok_0@) == c.signatories,
            None => r == Err::<Vec<String>, ContractError>(ContractError::NotInitialized),
        },
{
    match state.config() {
        Some(c) => Ok(copy_principals(&c.signatories)),
        None => Err(ContractError::NotInitialized),
    }
}

/// The transaction with id `id`, or `None` where there is none. No role is
/// needed to read.
pub fn query_tx(state: &Multisig, id: usize) -> (r: Result<Option<TX>, ContractError>)
    ensures
        state@.config is None ==> r == Err::<Option<TX>, ContractError>(
            ContractError::NotInitialized,
        ),
        state@.config is Some ==> match r {
            Ok(Some(t)) => id < state@.txs.len() && t@ == state@.txs[id as int],
            Ok(None) => id >= state@.txs.len(),
            Err(_) => false,
        },
{
    if state.config().is_none() {
        return Err(ContractError::NotInitialized);
    }
    match state.tx(id) {
        Some(t) => Ok(Some(copy_tx(t))),
        None => Ok(None),
    }
}

/// The answer to a read-only request.
#[derive(Debug, Clone, PartialEq, Eq)]
pub enum QueryResponse {
    Threshold(u128),
    Signatories(Vec<String>),
    Tx(Option<TX>),
}

/// Dispatches a read-only request.
pub fn query(state: &Multisig, msg: QueryMsg) -> (r: Result<QueryResponse, ContractError>)
    ensures
        state@.config is None ==> r == Err::<QueryResponse, ContractError>(
            ContractError::NotInitialized,
        ),
        state@.config is Some ==> match (msg, r) {
            (QueryMsg::GetThresold {  }, Ok(QueryResponse::Threshold(t))) => t
                == state@.config->Some_0.threshold,
            (QueryMsg::GetSignatories {  }, Ok(QueryResponse::Signatories(v))) => principals_view(
                v@,
            ) == state@.config->Some_0.signatories,
            (QueryMsg::GetTx { id }, Ok(QueryResponse::Tx(Some(t)))) => id < state@.txs.len()
                && t@ == state@.txs[id as int],
            (QueryMsg::GetTx { id }, Ok(QueryResponse::Tx(None))) => id >= state@.txs.len(),
            _ => false,
        },
{
    match msg {
        QueryMsg::GetThresold {  } => match query_threshold(state) {
            Ok(t) => Ok(QueryResponse::Threshold(t)),
            Err(e) => Err(e),
        },
        QueryMsg::GetSignatories {  } => match query_signatories(state) {
            Ok(v) => Ok(QueryResponse::Signatories(v)),
            Err(e) => Err(e),
        },
        QueryMsg::GetTx { id } => {
            if state.config().is_none() {
                return Err(ContractError::NotInitialized);
            }
            if id >= state.tx_count() as u128 {
                return Ok(QueryResponse::Tx(None));
            }
            match query_tx(state, id as usize) {
                Ok(t) => Ok(QueryResponse::Tx(t)),
                Err(e) => Err(e),
            }
        },
    }
}

} // verus!
