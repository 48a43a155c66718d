//! What the simulator's answers mean for the caller: the outcome of a batch
//! and of a query, for every answer that the simulator can give.

use crate::response::{aggregate, all_events, response_bytes, ExecutionError, ExecutionResult, SubResult};
use vstd::prelude::*;

verus! {

/// Why a query was not answered.
#[derive(Debug, Clone, PartialEq, Eq)]
pub enum QueryError {
    Generic { message: String },
}

/// What the simulator's answer to a batch means for the caller.
pub open spec fn concluded(
    outcome: Result<Vec<SubResult>, String>,
    r: Result<ExecutionResult, ExecutionError>,
) -> bool {
    match outcome {
        Ok(subs) => r matches Ok(x) && x.events@ == all_events(subs@) && x.raw_data@
            == response_bytes(subs@) && x.gas_wanted == 0 && x.gas_used == 0,
        Err(reason) => r == Err::<ExecutionResult, ExecutionError>(
            ExecutionError::Rejected { reason },
        ),
    }
}

/// Turns the simulator's answer to a batch into the caller's result: the
/// aggregate of the sub-results, or the rejection with the simulator's
/// reason, in which case no response is looked at.
pub fn conclude(outcome: Result<Vec<SubResult>, String>) -> (r: Result<
    ExecutionResult,
    ExecutionError,
>)
    ensures
        concluded(outcome, r),
{
    match outcome {
        Ok(subs) => Ok(aggregate(subs)),
        Err(reason) => Err(ExecutionError::Rejected { reason }),
    }
}

/// Turns the simulator's answer to a query into the caller's result: the
/// response bytes as they came, or the failure with the simulator's words.
pub fn answer(outcome: Result<Vec<u8>, String>) -> (r: Result<Vec<u8>, QueryError>)
    ensures
        r == match outcome {
            Ok(bytes) => Ok::<Vec<u8>, QueryError>(bytes),
            Err(message) => Err(QueryError::Generic { message }),
        },
{
    match outcome {
        Ok(bytes) => Ok(bytes),
        Err(message) => Err(QueryError::Generic { message }),
    }
}

} // verus!
