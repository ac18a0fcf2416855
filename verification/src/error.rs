use vstd::prelude::*;

verus! {

/// The ways in which one run of the pipeline can end without settling.
#[derive(Clone, Copy, Debug, PartialEq, Eq, Structural)]
pub enum PipelineError {
    /// The supplied compute budget cannot cover the rest of the pipeline.
    InsufficientGas,
    /// A non-empty deposit message could not be decoded.
    WrongMessageFormat,
    /// The risk query came back without an answer.
    RiskQueryFailed,
    /// The depositor's risk score is above the configured threshold.
    RiskRejected,
    /// An action could not be applied to the scratch account.
    ActionPreconditionViolated,
    /// An outbound transfer did not land.
    TransferFailed,
}

} // verus!
