use latexfogel::cache::{BotContext, ResponseState, WidenEntry};
use latexfogel::cache::response_transition;
use latexfogel::gate::{
    action_permitted, decode_action_id, encode_action_id, interaction_unauthorized_message,
    unknown_correlation_message, widen_click, ActionId, ActionKind, WidenDecision,
};

const U1: u64 = 1111;
const U2: u64 = 2222;

#[test]
fn ownership_accepts_only_the_owner() {
    let id = ActionId { kind: ActionKind::Delete, owner: U1 };
    assert!(action_permitted(id, U1));
    assert!(!action_permitted(id, U2));
}

#[test]
fn ownership_survives_the_identifier_round_trip() {
    let id = ActionId { kind: ActionKind::Widen, owner: U1 };
    let decoded = decode_action_id(&encode_action_id(id)).expect("well-formed id");
    assert!(action_permitted(decoded, U1));
    assert!(!action_permitted(decoded, U2));
}

#[test]
fn widen_by_non_owner_is_denied_and_mutates_nothing() {
    let mut ctx = BotContext::new(b"img".to_vec());
    ctx.register_widen_info(77, WidenEntry { owner: U1, latex: b"src".to_vec() });
    let action = ActionId { kind: ActionKind::Widen, owner: U1 };
    assert!(matches!(
        widen_click(&ctx, 77, action, U2),
        WidenDecision::Denied
    ));
    // The original response's entry is unchanged.
    let entry = ctx.widen_info(77).expect("entry still present");
    assert_eq!(entry.owner, U1);
    assert_eq!(entry.latex, b"src".to_vec());
}

#[test]
fn widen_by_non_owner_is_denied_even_without_an_entry() {
    let ctx = BotContext::new(b"img".to_vec());
    let action = ActionId { kind: ActionKind::Widen, owner: U1 };
    assert!(matches!(
        widen_click(&ctx, 77, action, U2),
        WidenDecision::Denied
    ));
}

#[test]
fn widen_after_restart_is_unknown_correlation() {
    // A fresh context stands for the process after a restart: the action
    // identifier is still valid, but the caches are empty.
    let ctx = BotContext::new(b"img".to_vec());
    let action = ActionId { kind: ActionKind::Widen, owner: U1 };
    assert!(matches!(
        widen_click(&ctx, 77, action, U1),
        WidenDecision::Unknown
    ));
}

#[test]
fn widen_by_owner_hands_back_the_cached_source() {
    let mut ctx = BotContext::new(b"img".to_vec());
    ctx.register_widen_info(77, WidenEntry { owner: U1, latex: b"cached source".to_vec() });
    let action = ActionId { kind: ActionKind::Widen, owner: U1 };
    match widen_click(&ctx, 77, action, U1) {
        WidenDecision::Render { source, owner } => {
            assert_eq!(source, &b"cached source".to_vec());
            assert_eq!(owner, U1);
        }
        _ => panic!("the owner's widen click must render"),
    }
}

#[test]
fn rerender_supersedes_previous_response() {
    let mut ctx = BotContext::new(b"img".to_vec());
    let inbound = 42;

    // First render.
    assert_eq!(ctx.rendered_response_id(inbound), None);
    ctx.record_render_result(inbound, 100, U1, b"v1".to_vec(), false);
    assert_eq!(ctx.rendered_response_id(inbound), Some(100));

    // Second render of the same inbound message: the previous response is
    // found (and would be best-effort deleted), then superseded.
    let stale = ctx.rendered_response_id(inbound);
    assert_eq!(stale, Some(100));
    ctx.record_render_result(inbound, 200, U1, b"v2".to_vec(), false);
    assert_eq!(ctx.rendered_response_id(inbound), Some(200));
}

#[test]
fn widen_entry_is_kept_only_on_overflow_and_forgotten_after_widening() {
    let mut ctx = BotContext::new(b"img".to_vec());
    ctx.record_render_result(1, 10, U1, b"plain".to_vec(), false);
    assert!(ctx.widen_info(10).is_none());

    ctx.record_render_result(2, 20, U1, b"overflowing".to_vec(), true);
    assert!(ctx.widen_info(20).is_some());

    ctx.forget_widen_info(20);
    assert!(ctx.widen_info(20).is_none());
}

#[test]
fn lifecycle_transitions() {
    assert_eq!(
        response_transition(ResponseState::RenderedOverflowed, ActionKind::Widen),
        Some(ResponseState::RenderedPlain)
    );
    assert_eq!(
        response_transition(ResponseState::RenderedOverflowed, ActionKind::Delete),
        Some(ResponseState::Deleted)
    );
    assert_eq!(
        response_transition(ResponseState::RenderedPlain, ActionKind::Delete),
        Some(ResponseState::Deleted)
    );
    assert_eq!(
        response_transition(ResponseState::RenderedPlain, ActionKind::Widen),
        None
    );
    assert_eq!(
        response_transition(ResponseState::Deleted, ActionKind::Delete),
        None
    );
    assert_eq!(
        response_transition(ResponseState::Deleted, ActionKind::Widen),
        None
    );
}

#[test]
fn unknown_correlation_notice() {
    assert_eq!(
        unknown_correlation_message(),
        "I don't remember that button. Was it before a restart?"
    );
}

#[test]
fn unauthorized_notices() {
    assert_eq!(
        interaction_unauthorized_message(140579104222085121),
        "Bad bean, this isn't yours to click!"
    );
    assert_eq!(
        interaction_unauthorized_message(U2),
        "Good job. But this output was not generated for you, you cannot modify it."
    );
}
