//! The seams between the runtime and an orchestrator: its error type and the
//! model-router interface.
use vstd::prelude::*;

use crate::protocol::ModelCapabilityDescriptor;
use crate::protocol::ModelSelectionDecision;
use crate::protocol::ModelSelectionRequest;

verus! {

#[derive(Clone, Debug, PartialEq, Eq)]
pub enum OrchestratorError {
    PlannerUnavailable(String),
    Other(String),
}

impl OrchestratorError {
    /// The error's message.
    pub fn message(&self) -> (m: String)
        ensures
            m@ == match self {
                OrchestratorError::PlannerUnavailable(s) => "planner unavailable: "@ + s@,
                OrchestratorError::Other(s) => "orchestration failed: "@ + s@,
            },
    {
        match self {
            OrchestratorError::PlannerUnavailable(s) => crate::text::join2("planner unavailable: ", s.as_str()),
            OrchestratorError::Other(s) => crate::text::join2("orchestration failed: ", s.as_str()),
        }
    }
}

/// Chooses a model for a request; implemented by routers the runtime can ask.
pub trait ModelRouter {
    fn list_capabilities(&self) -> Result<Vec<ModelCapabilityDescriptor>, OrchestratorError>;

    fn select_model(&self, request: &ModelSelectionRequest) -> Result<
        ModelSelectionDecision,
        OrchestratorError,
    >;
}

} // verus!
