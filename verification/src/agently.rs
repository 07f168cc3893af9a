//! The Agently sidecar's side of orchestration: the request sent for each
//! orchestrator operation, and what its reply comes to. Sending the request
//! and awaiting the reply is the transport's work.
use vstd::prelude::*;

use crate::orchestrator::OrchestratorError;
use crate::protocol::ContinueDecision;
use crate::protocol::ContinueRequest;
use crate::protocol::PlannerRequest;

verus! {

/// One operation asked of the sidecar, with its request.
#[derive(Clone, Debug, PartialEq, Eq)]
pub struct AgentlySidecarRequest {
    pub operation: String,
    pub continue_request: Option<ContinueRequest>,
    pub planner_request: Option<PlannerRequest>,
}

impl AgentlySidecarRequest {
    /// The sidecar request that asks whether to continue.
    pub fn decide_continue(request: ContinueRequest) -> (r: Self)
        ensures
            r.operation@ == "decide_continue"@,
            r.continue_request == Some(request),
            r.planner_request is None,
    {
        AgentlySidecarRequest {
            operation: "decide_continue".to_string(),
            continue_request: Some(request),
            planner_request: None,
        }
    }

    /// The sidecar request that asks for the next action.
    pub fn plan_next_action(request: PlannerRequest) -> (r: Self)
        ensures
            r.operation@ == "plan_next_action"@,
            r.continue_request is None,
            r.planner_request == Some(request),
    {
        AgentlySidecarRequest {
            operation: "plan_next_action".to_string(),
            continue_request: None,
            planner_request: Some(request),
        }
    }
}

/// What a reply comes to: the error it reports, else what it carries, else
/// an error saying what is missing.
pub open spec fn reply_outcome<P>(payload: Option<P>, error: Option<String>, missing: Seq<char>) -> Result<
    P,
    Seq<char>,
> {
    match error {
        Some(e) => Err(e@),
        None => match payload {
            Some(p) => Ok(p),
            None => Err(missing),
        },
    }
}

pub open spec fn outcome_of<P>(r: Result<P, OrchestratorError>) -> Result<P, Seq<char>> {
    match r {
        Ok(p) => Ok(p),
        Err(OrchestratorError::Other(m)) => Err(m@),
        Err(OrchestratorError::PlannerUnavailable(m)) => Err("planner unavailable: "@ + m@),
    }
}

/// The result of a sidecar reply: an error it reports fails the operation,
/// else the payload is the answer; a reply with neither fails with
/// `missing`.
pub fn sidecar_reply<P>(payload: Option<P>, error: Option<String>, missing: &str) -> (r: Result<
    P,
    OrchestratorError,
>)
    ensures
        r is Err ==> r->Err_0 is Other,
        outcome_of(r) == reply_outcome(payload, error, missing@),
{
    match error {
        Some(e) => Err(OrchestratorError::Other(e)),
        None => match payload {
            Some(p) => Ok(p),
            None => Err(OrchestratorError::Other(missing.to_string())),
        },
    }
}

/// The continue decision a sidecar reply comes to.
pub fn continue_decision_from_reply(
    continue_decision: Option<ContinueDecision>,
    error: Option<String>,
) -> (r: Result<ContinueDecision, OrchestratorError>)
    ensures
        r is Err ==> r->Err_0 is Other,
        outcome_of(r) == reply_outcome(
            continue_decision,
            error,
            "agently transport did not return a continue decision"@,
        ),
{
    sidecar_reply(
        continue_decision,
        error,
        "agently transport did not return a continue decision",
    )
}

/// The planner response a sidecar reply comes to.
pub fn planner_response_from_reply<P>(planner_response: Option<P>, error: Option<String>) -> (r:
    Result<P, OrchestratorError>)
    ensures
        r is Err ==> r->Err_0 is Other,
        outcome_of(r) == reply_outcome(
            planner_response,
            error,
            "agently transport did not return a planner response"@,
        ),
{
    sidecar_reply(planner_response, error, "agently transport did not return a planner response")
}

} // verus!
