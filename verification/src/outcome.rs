//! Render outcomes and their mapping to user-facing notices.
//!
//! Every render resolves to exactly one of three outcomes: a successful
//! image, an engine-level failure (the engine itself rejected the input and
//! described why), or an infrastructure failure (the sandbox could not run
//! the engine to a well-formed answer). Infrastructure diagnostics are kept
//! for logging but are never surfaced to the untrusted caller: the notice for
//! every infrastructure failure is one fixed generic text.
use crate::bytes::copy_bytes;
use crate::protocol::{FrameDecode, FrameModel};
use vstd::prelude::*;

verus! {

/// Why the sandbox could not produce a well-formed engine answer.
pub enum InfraReason {
    /// The renderer image could not be fetched.
    PullFailure,
    /// The container could not be spawned, or its input could not be written.
    SpawnFailure,
    /// The deadline elapsed and the container was force-killed.
    Timeout,
    /// The container exited with a non-zero status; the captured streams are
    /// kept for diagnostics only.
    NonZeroExit { stdout: Vec<u8>, stderr: Vec<u8> },
    /// The container exited cleanly but its output broke the framing.
    ProtocolFraming,
}

/// The mathematical model of an infrastructure failure reason.
pub enum ReasonModel {
    PullFailure,
    SpawnFailure,
    Timeout,
    NonZeroExit { stdout: Seq<u8>, stderr: Seq<u8> },
    ProtocolFraming,
}

impl View for InfraReason {
    type V = ReasonModel;

    open spec fn view(&self) -> ReasonModel {
        match self {
            InfraReason::PullFailure => ReasonModel::PullFailure,
            InfraReason::SpawnFailure => ReasonModel::SpawnFailure,
            InfraReason::Timeout => ReasonModel::Timeout,
            InfraReason::NonZeroExit { stdout, stderr } => ReasonModel::NonZeroExit {
                stdout: stdout@,
                stderr: stderr@,
            },
            InfraReason::ProtocolFraming => ReasonModel::ProtocolFraming,
        }
    }
}

/// The result of one render request.
pub enum RenderOutcome {
    /// The engine produced an image.
    Success { png: Vec<u8>, overflow: bool },
    /// The engine rejected the input; the message is surfaced verbatim.
    EngineError { message: Vec<u8> },
    /// The sandbox failed; only a generic notice is surfaced.
    InfrastructureError { reason: InfraReason },
}

/// The mathematical model of a render outcome.
pub enum OutcomeModel {
    Success { png: Seq<u8>, overflow: bool },
    EngineError { message: Seq<u8> },
    InfrastructureError { reason: ReasonModel },
}

impl View for RenderOutcome {
    type V = OutcomeModel;

    open spec fn view(&self) -> OutcomeModel {
        match self {
            RenderOutcome::Success { png, overflow } => OutcomeModel::Success {
                png: png@,
                overflow: *overflow,
            },
            RenderOutcome::EngineError { message } => OutcomeModel::EngineError {
                message: message@,
            },
            RenderOutcome::InfrastructureError { reason } => OutcomeModel::InfrastructureError {
                reason: reason@,
            },
        }
    }
}

/// Whether the outcome is a successful render.
pub open spec fn is_success(o: OutcomeModel) -> bool {
    o is Success
}

/// Whether the outcome is an engine-level failure.
pub open spec fn is_engine_error(o: OutcomeModel) -> bool {
    o is EngineError
}

/// Whether the outcome is an infrastructure failure.
pub open spec fn is_infrastructure(o: OutcomeModel) -> bool {
    o is InfrastructureError
}

/// Every outcome is exactly one of success, engine error and infrastructure
/// error: never none of them, never two at once.
pub proof fn lemma_outcome_exclusive(o: OutcomeModel)
    ensures
        is_success(o) || is_engine_error(o) || is_infrastructure(o),
        !(is_success(o) && is_engine_error(o)),
        !(is_success(o) && is_infrastructure(o)),
        !(is_engine_error(o) && is_infrastructure(o)),
{
}

/// How a decoded output frame is classified: a malformed frame is an
/// infrastructure failure, never an engine error.
pub open spec fn outcome_of_frame(f: FrameModel) -> OutcomeModel {
    match f {
        FrameModel::Success { overflow, png } => OutcomeModel::Success { png, overflow },
        FrameModel::EngineFailure { message } => OutcomeModel::EngineError { message },
        FrameModel::Malformed => OutcomeModel::InfrastructureError {
            reason: ReasonModel::ProtocolFraming,
        },
    }
}

/// Classifies a decoded output frame as a render outcome.
pub fn frame_to_outcome(f: FrameDecode) -> (r: RenderOutcome)
    ensures
        r@ == outcome_of_frame(f@),
{
    match f {
        FrameDecode::Success { overflow, png } => RenderOutcome::Success { png, overflow },
        FrameDecode::EngineFailure { message } => RenderOutcome::EngineError { message },
        FrameDecode::Malformed => RenderOutcome::InfrastructureError {
            reason: InfraReason::ProtocolFraming,
        },
    }
}

/// The fixed generic notice shown for every infrastructure failure:
/// `Rendering failed, please try again later.`
pub open spec fn generic_failure_notice() -> Seq<u8> {
    seq![
        82u8, 101u8, 110u8, 100u8, 101u8, 114u8, 105u8, 110u8, 103u8, 32u8, 102u8, 97u8, 105u8,
        108u8, 101u8, 100u8, 44u8, 32u8, 112u8, 108u8, 101u8, 97u8, 115u8, 101u8, 32u8, 116u8,
        114u8, 121u8, 32u8, 97u8, 103u8, 97u8, 105u8, 110u8, 32u8, 108u8, 97u8, 116u8, 101u8,
        114u8, 46u8,
    ]
}

/// The generic infrastructure-failure notice, as bytes.
pub fn generic_failure_notice_vec() -> (r: Vec<u8>)
    ensures
        r@ == generic_failure_notice(),
{
    let r: Vec<u8> = vec![
        82u8, 101u8, 110u8, 100u8, 101u8, 114u8, 105u8, 110u8, 103u8, 32u8, 102u8, 97u8, 105u8,
        108u8, 101u8, 100u8, 44u8, 32u8, 112u8, 108u8, 101u8, 97u8, 115u8, 101u8, 32u8, 116u8,
        114u8, 121u8, 32u8, 97u8, 103u8, 97u8, 105u8, 110u8, 32u8, 108u8, 97u8, 116u8, 101u8,
        114u8, 46u8,
    ];
    proof {
        assert(r@ =~= generic_failure_notice());
    }
    r
}

/// The notice shown to the user for an outcome: nothing for a success, the
/// engine's own message verbatim for an engine error, and the fixed generic
/// text for every infrastructure failure.
pub open spec fn failure_notice_spec(o: OutcomeModel) -> Option<Seq<u8>> {
    match o {
        OutcomeModel::Success { .. } => None,
        OutcomeModel::EngineError { message } => Some(message),
        OutcomeModel::InfrastructureError { .. } => Some(generic_failure_notice()),
    }
}

/// The user-facing notice for an outcome.
pub fn failure_notice(o: &RenderOutcome) -> (r: Option<Vec<u8>>)
    ensures
        match r {
            Some(m) => failure_notice_spec(o@) == Some(m@),
            None => failure_notice_spec(o@) is None,
        },
{
    match o {
        RenderOutcome::Success { .. } => None,
        RenderOutcome::EngineError { message } => Some(copy_bytes(message)),
        RenderOutcome::InfrastructureError { .. } => Some(generic_failure_notice_vec()),
    }
}

/// Infrastructure diagnostics never leak: the notice for an infrastructure
/// failure is the same whatever the reason, including whatever the captured
/// output streams hold.
pub proof fn lemma_infrastructure_notice_uniform(r1: ReasonModel, r2: ReasonModel)
    ensures
        failure_notice_spec(OutcomeModel::InfrastructureError { reason: r1 })
            == failure_notice_spec(OutcomeModel::InfrastructureError { reason: r2 }),
{
}

} // verus!
