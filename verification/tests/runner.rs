use latexfogel::cache::BotContext;
use latexfogel::outcome::{failure_notice, generic_failure_notice_vec, InfraReason, RenderOutcome};
use latexfogel::protocol::{encode_engine_error, encode_success};
use latexfogel::sandbox::{RenderRole, Runner, RunnerAction, RunnerEvent, RunnerPhase};
use latexfogel::supervisor::{latex_result, plan_invocation, RenderRequest};
use latexfogel::ImageWidth;

fn latex_runner(correlation_id: u64, source: &[u8]) -> Runner {
    let request = RenderRequest {
        source: source.to_vec(),
        mode: ImageWidth::Normal,
        correlation_id,
    };
    let invocation = plan_invocation(&b"renderer:latest".to_vec(), RenderRole::Latex, &request);
    Runner::new(invocation)
}

fn advance_to_awaiting(runner: &mut Runner) {
    assert!(matches!(
        runner.step(RunnerEvent::Pulled { ok: true }),
        RunnerAction::SpawnContainer
    ));
    assert!(matches!(
        runner.step(RunnerEvent::Spawned { ok: true }),
        RunnerAction::WriteInput
    ));
    assert!(matches!(
        runner.step(RunnerEvent::InputWritten { ok: true }),
        RunnerAction::AwaitExit
    ));
    assert_eq!(runner.phase(), RunnerPhase::Awaiting);
}

#[test]
fn invocation_is_hardened_and_framed() {
    let request = RenderRequest {
        source: b"x^2".to_vec(),
        mode: ImageWidth::Normal,
        correlation_id: 7,
    };
    let invocation = plan_invocation(&b"renderer:latest".to_vec(), RenderRole::Latex, &request);
    assert_eq!(invocation.image(), &b"renderer:latest".to_vec());
    assert_eq!(invocation.name(), &b"slave-latex-7".to_vec());
    assert_eq!(invocation.payload(), &b"normal\nx^2".to_vec());
    assert_eq!(invocation.pids_limit(), 5000);
    assert_eq!(invocation.memory_mb(), 500);
    assert_eq!(invocation.cpus(), 1);
    assert_eq!(invocation.deadline_secs(), 15);
    assert!(invocation.read_only_root());
    assert!(invocation.no_network());
    assert!(invocation.drop_all_caps());
    assert!(invocation.scratch_tmpfs());
}

#[test]
fn normal_render_succeeds_without_widen_entry() {
    let mut runner = latex_runner(1, b"x^2");
    advance_to_awaiting(&mut runner);
    let png: Vec<u8> = vec![1, 2, 3, 4];
    let action = runner.step(RunnerEvent::Exited {
        ok: true,
        stdout: encode_success(false, &png),
        stderr: vec![],
    });
    let outcome = match action {
        RunnerAction::Finish { outcome } => outcome,
        _ => panic!("expected the run to finish"),
    };
    assert_eq!(runner.phase(), RunnerPhase::Done);
    assert!(failure_notice(&outcome).is_none());
    let rendered = latex_result(outcome).expect("render succeeded");
    assert_eq!(rendered.png, png);
    assert!(!rendered.overrun_hbox);

    let mut ctx = BotContext::new(b"renderer:latest".to_vec());
    ctx.record_render_result(10, 20, 500, b"x^2".to_vec(), rendered.overrun_hbox);
    assert_eq!(ctx.rendered_response_id(10), Some(20));
    assert!(ctx.widen_info(20).is_none());
}

#[test]
fn overflowing_render_registers_widen_entry() {
    let mut runner = latex_runner(2, b"wide content");
    advance_to_awaiting(&mut runner);
    let png: Vec<u8> = vec![9, 9];
    let action = runner.step(RunnerEvent::Exited {
        ok: true,
        stdout: encode_success(true, &png),
        stderr: vec![],
    });
    let rendered = match action {
        RunnerAction::Finish { outcome } => latex_result(outcome).expect("render succeeded"),
        _ => panic!("expected the run to finish"),
    };
    assert!(rendered.overrun_hbox);

    let mut ctx = BotContext::new(b"renderer:latest".to_vec());
    ctx.record_render_result(11, 21, 500, b"wide content".to_vec(), rendered.overrun_hbox);
    let entry = ctx.widen_info(21).expect("widen entry registered");
    assert_eq!(entry.owner, 500);
    assert_eq!(entry.latex, b"wide content".to_vec());
}

#[test]
fn malformed_engine_output_gives_engine_error_verbatim() {
    let mut runner = latex_runner(3, b"\\frac{");
    advance_to_awaiting(&mut runner);
    let message = b"Invalid LaTeX: missing }".to_vec();
    let action = runner.step(RunnerEvent::Exited {
        ok: true,
        stdout: encode_engine_error(&message),
        stderr: vec![],
    });
    let outcome = match action {
        RunnerAction::Finish { outcome } => outcome,
        _ => panic!("expected the run to finish"),
    };
    assert!(matches!(outcome, RenderOutcome::EngineError { .. }));
    assert_eq!(failure_notice(&outcome), Some(message.clone()));
    match latex_result(outcome) {
        Err(shown) => assert_eq!(shown, message),
        Ok(_) => panic!("an engine error is not a success"),
    }
}

#[test]
fn deadline_expiry_kills_exact_container_and_times_out() {
    let mut runner = latex_runner(9, b"\\loop");
    advance_to_awaiting(&mut runner);
    let action = runner.step(RunnerEvent::DeadlineExpired);
    match action {
        RunnerAction::KillContainer { name } => {
            assert_eq!(name, b"slave-latex-9".to_vec());
        }
        _ => panic!("the deadline must force a kill"),
    }
    assert_eq!(runner.phase(), RunnerPhase::Killing);
    let action = runner.step(RunnerEvent::KillFinished);
    let outcome = match action {
        RunnerAction::Finish { outcome } => outcome,
        _ => panic!("expected the run to finish"),
    };
    assert!(matches!(
        outcome,
        RenderOutcome::InfrastructureError { reason: InfraReason::Timeout }
    ));
    // The user sees only the generic notice.
    assert_eq!(failure_notice(&outcome), Some(generic_failure_notice_vec()));
}

#[test]
fn pull_failure_aborts_without_spawning() {
    let mut runner = latex_runner(4, b"x");
    let action = runner.step(RunnerEvent::Pulled { ok: false });
    match action {
        RunnerAction::Finish { outcome } => assert!(matches!(
            outcome,
            RenderOutcome::InfrastructureError { reason: InfraReason::PullFailure }
        )),
        _ => panic!("a pull failure must finish the run"),
    }
    assert_eq!(runner.phase(), RunnerPhase::Done);
}

#[test]
fn spawn_and_write_failures_are_infrastructure_errors() {
    let mut runner = latex_runner(5, b"x");
    runner.step(RunnerEvent::Pulled { ok: true });
    match runner.step(RunnerEvent::Spawned { ok: false }) {
        RunnerAction::Finish { outcome } => assert!(matches!(
            outcome,
            RenderOutcome::InfrastructureError { reason: InfraReason::SpawnFailure }
        )),
        _ => panic!("a spawn failure must finish the run"),
    }

    let mut runner = latex_runner(6, b"x");
    runner.step(RunnerEvent::Pulled { ok: true });
    runner.step(RunnerEvent::Spawned { ok: true });
    match runner.step(RunnerEvent::InputWritten { ok: false }) {
        RunnerAction::Finish { outcome } => assert!(matches!(
            outcome,
            RenderOutcome::InfrastructureError { reason: InfraReason::SpawnFailure }
        )),
        _ => panic!("a write failure must finish the run"),
    }
}

#[test]
fn nonzero_exit_is_infrastructure_not_engine_error() {
    let mut runner = latex_runner(7, b"x");
    advance_to_awaiting(&mut runner);
    let action = runner.step(RunnerEvent::Exited {
        ok: false,
        stdout: b"secret diagnostics".to_vec(),
        stderr: b"stack trace".to_vec(),
    });
    let outcome = match action {
        RunnerAction::Finish { outcome } => outcome,
        _ => panic!("expected the run to finish"),
    };
    assert!(matches!(
        outcome,
        RenderOutcome::InfrastructureError { reason: InfraReason::NonZeroExit { .. } }
    ));
    // The diagnostics never reach the user.
    let notice = failure_notice(&outcome).expect("failures carry a notice");
    assert_eq!(notice, generic_failure_notice_vec());
    assert_eq!(notice, b"Rendering failed, please try again later.".to_vec());
}

#[test]
fn short_or_unknown_output_is_a_framing_violation() {
    for stdout in [vec![], vec![0u8], vec![9u8, 0, 0]] {
        let mut runner = latex_runner(8, b"x");
        advance_to_awaiting(&mut runner);
        let action = runner.step(RunnerEvent::Exited { ok: true, stdout, stderr: vec![] });
        match action {
            RunnerAction::Finish { outcome } => assert!(matches!(
                outcome,
                RenderOutcome::InfrastructureError { reason: InfraReason::ProtocolFraming }
            )),
            _ => panic!("expected the run to finish"),
        }
    }
}
