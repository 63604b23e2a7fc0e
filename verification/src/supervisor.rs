//! The per-request render supervision: building the sandbox invocation for a
//! request and mapping the run's outcome to what the caller shows the user.
use crate::bytes::copy_bytes;
use crate::outcome::{generic_failure_notice, generic_failure_notice_vec, RenderOutcome};
use crate::protocol::{encode_input, input_frame};
use crate::sandbox::{container_name, container_name_spec, hardened, RenderRole, SandboxInvocation};
use crate::ImageWidth;
use vstd::prelude::*;

verus! {

/// One logical render request, immutable once created.
pub struct RenderRequest {
    /// The untrusted source text, as bytes.
    pub source: Vec<u8>,
    /// The rendering width variant.
    pub mode: ImageWidth,
    /// The opaque correlation id tying the request to its container name.
    pub correlation_id: u64,
}

/// The page width the typesetting engine is told to use for a width variant.
pub fn image_width_measure(width: ImageWidth) -> (r: &'static str)
    ensures
        width == ImageWidth::Wide ==> r@ == "18cm"@,
        width == ImageWidth::Normal ==> r@ == "11.5cm"@,
{
    match width {
        ImageWidth::Wide => "18cm",
        ImageWidth::Normal => "11.5cm",
    }
}

/// Builds the hardened sandbox invocation for one render request: the
/// deterministic container name for the role and correlation id, and the
/// framed input payload.
pub fn plan_invocation(image: &Vec<u8>, role: RenderRole, req: &RenderRequest) -> (inv:
    SandboxInvocation)
    ensures
        inv@.image == image@,
        inv@.name == container_name_spec(role, req.correlation_id),
        inv@.payload == input_frame(req.mode, req.source@),
        hardened(inv@),
{
    let name = container_name(role, req.correlation_id);
    let payload = encode_input(req.mode, &req.source);
    SandboxInvocation::new(copy_bytes(image), name, payload)
}

/// A finished LaTeX render: the image and whether the content overran its
/// box.
pub struct RenderedLatex {
    pub png: Vec<u8>,
    pub overrun_hbox: bool,
}

/// A finished typst render.
pub struct RenderedTypst {
    pub png: Vec<u8>,
}

/// Maps a render outcome to the caller's result for a LaTeX job: the image
/// and overflow flag on success, the engine's message verbatim on an engine
/// error, and the fixed generic notice on any infrastructure failure.
pub fn latex_result(outcome: RenderOutcome) -> (r: Result<RenderedLatex, Vec<u8>>)
    ensures
        outcome@ matches crate::outcome::OutcomeModel::Success { png, overflow } ==> (r matches Ok(
            img,
        ) && img.png@ == png && img.overrun_hbox == overflow),
        outcome@ matches crate::outcome::OutcomeModel::EngineError { message } ==> (r matches Err(m)
            && m@ == message),
        outcome@ is InfrastructureError ==> (r matches Err(m) && m@ == generic_failure_notice()),
{
    match outcome {
        RenderOutcome::Success { png, overflow } => Ok(
            RenderedLatex { png, overrun_hbox: overflow },
        ),
        RenderOutcome::EngineError { message } => Err(message),
        RenderOutcome::InfrastructureError { .. } => Err(generic_failure_notice_vec()),
    }
}

/// Maps a render outcome to the caller's result for a typst job.
pub fn typst_result(outcome: RenderOutcome) -> (r: Result<RenderedTypst, Vec<u8>>)
    ensures
        outcome@ matches crate::outcome::OutcomeModel::Success { png, overflow } ==> (r matches Ok(
            img,
        ) && img.png@ == png),
        outcome@ matches crate::outcome::OutcomeModel::EngineError { message } ==> (r matches Err(m)
            && m@ == message),
        outcome@ is InfrastructureError ==> (r matches Err(m) && m@ == generic_failure_notice()),
{
    match outcome {
        RenderOutcome::Success { png, .. } => Ok(RenderedTypst { png }),
        RenderOutcome::EngineError { message } => Err(message),
        RenderOutcome::InfrastructureError { .. } => Err(generic_failure_notice_vec()),
    }
}

} // verus!
