use vstd::prelude::*;

verus! {

/// Where one deposit stands on its way through the pipeline.
#[derive(Clone, Copy, Debug, PartialEq, Eq, Structural)]
pub enum PipelineState {
    /// The deposit has been announced and its message is being read.
    Received,
    /// The compute budget has been found to cover the rest.
    GasChecked,
    /// The risk query is out; nothing happens until its answer comes.
    RiskPending,
    /// The depositor's risk is within the threshold.
    RiskApproved,
    /// The depositor's risk is above the threshold; the deposit is kept.
    RiskRejected,
    /// The operations are being applied to the scratch account.
    Executing,
    /// The resulting balances have been handed out.
    Settled,
    /// The run ended without settling; the deposit is kept.
    Failed,
}

impl PipelineState {
    /// Whether the pipeline can move from this state to `next` in one step.
    pub open spec fn follows(self, next: PipelineState) -> bool {
        match (self, next) {
            (PipelineState::Received, PipelineState::GasChecked) => true,
            (PipelineState::GasChecked, PipelineState::RiskPending) => true,
            (PipelineState::RiskPending, PipelineState::RiskApproved) => true,
            (PipelineState::RiskPending, PipelineState::RiskRejected) => true,
            (PipelineState::RiskPending, PipelineState::Failed) => true,
            (PipelineState::RiskApproved, PipelineState::Executing) => true,
            (PipelineState::Executing, PipelineState::Settled) => true,
            (PipelineState::Executing, PipelineState::Failed) => true,
            _ => false,
        }
    }

    /// Whether nothing follows this state.
    pub open spec fn is_terminal(self) -> bool {
        self == PipelineState::RiskRejected || self == PipelineState::Settled || self
            == PipelineState::Failed
    }

    /// Whether every state of `path` but the first follows the one before it.
    pub open spec fn is_path(path: Seq<PipelineState>) -> bool {
        forall|i: int| 0 <= i < path.len() - 1 ==> (#[trigger] path[i]).follows(path[i + 1])
    }

    /// Whether the pipeline can move from this state to `next` in one step.
    pub fn can_step_to(&self, next: &PipelineState) -> (allowed: bool)
        ensures
            allowed == self.follows(*next),
    {
        match (self, next) {
            (PipelineState::Received, PipelineState::GasChecked) => true,
            (PipelineState::GasChecked, PipelineState::RiskPending) => true,
            (PipelineState::RiskPending, PipelineState::RiskApproved) => true,
            (PipelineState::RiskPending, PipelineState::RiskRejected) => true,
            (PipelineState::RiskPending, PipelineState::Failed) => true,
            (PipelineState::RiskApproved, PipelineState::Executing) => true,
            (PipelineState::Executing, PipelineState::Settled) => true,
            (PipelineState::Executing, PipelineState::Failed) => true,
            _ => false,
        }
    }

    /// Whether nothing follows this state.
    pub fn terminal(&self) -> (end: bool)
        ensures
            end == self.is_terminal(),
    {
        match self {
            PipelineState::RiskRejected | PipelineState::Settled | PipelineState::Failed => true,
            _ => false,
        }
    }
}

/// No state follows a terminal state.
pub proof fn law_terminal_state_is_final(state: PipelineState, next: PipelineState)
    requires
        state.is_terminal(),
    ensures
        !state.follows(next),
{
}

} // verus!
