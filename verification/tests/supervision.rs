use latexfogel::outcome::{InfraReason, RenderOutcome};
use latexfogel::protocol::encode_success;
use latexfogel::sandbox::{RenderRole, Runner, RunnerAction, RunnerEvent};
use latexfogel::supervisor::{image_width_measure, plan_invocation, typst_result, RenderRequest};
use latexfogel::ImageWidth;

#[test]
fn width_measures() {
    assert_eq!(image_width_measure(ImageWidth::Wide), "18cm");
    assert_eq!(image_width_measure(ImageWidth::Normal), "11.5cm");
}

#[test]
fn typst_render_runs_under_its_own_container_name() {
    let request = RenderRequest {
        source: b"#lorem(10)".to_vec(),
        mode: ImageWidth::Normal,
        correlation_id: 31,
    };
    let invocation = plan_invocation(&b"renderer:latest".to_vec(), RenderRole::Typst, &request);
    assert_eq!(invocation.name(), &b"slave-typst-31".to_vec());

    let mut runner = Runner::new(invocation);
    runner.step(RunnerEvent::Pulled { ok: true });
    runner.step(RunnerEvent::Spawned { ok: true });
    runner.step(RunnerEvent::InputWritten { ok: true });
    let png: Vec<u8> = vec![5, 6, 7];
    let action = runner.step(RunnerEvent::Exited {
        ok: true,
        stdout: encode_success(false, &png),
        stderr: vec![],
    });
    let outcome = match action {
        RunnerAction::Finish { outcome } => outcome,
        _ => panic!("expected the run to finish"),
    };
    let rendered = typst_result(outcome).expect("render succeeded");
    assert_eq!(rendered.png, png);
}

#[test]
fn typst_failures_surface_like_latex_failures() {
    let outcome = RenderOutcome::EngineError { message: b"no such function".to_vec() };
    match typst_result(outcome) {
        Err(shown) => assert_eq!(shown, b"no such function".to_vec()),
        Ok(_) => panic!("an engine error is not a success"),
    }
    let outcome = RenderOutcome::InfrastructureError { reason: InfraReason::PullFailure };
    match typst_result(outcome) {
        Err(shown) => assert_eq!(shown, b"Rendering failed, please try again later.".to_vec()),
        Ok(_) => panic!("an infrastructure error is not a success"),
    }
}
