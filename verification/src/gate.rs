//! Action identifiers and the authorization gate.
//!
//! Every interactive control attached to a rendered response carries an
//! action identifier that embeds the owning user's identity together with the
//! action kind. The authorization check extracts that identity from the identifier alone and
//! compares it with whoever triggered the action: the ownership decision
//! needs no cache access, so it stays correct even after a process restart
//! loses the correlation caches.
use crate::bytes::{is_prefix_of, starts_with_bytes, sub_bytes};
use crate::cache::BotContext;
use crate::digits::{
    dec_digits, digits_value, is_digits, lemma_dec_digits_value, parse_u64_dec, u64_to_dec,
};
use vstd::prelude::*;

verus! {

/// The kind of a follow-up action on a rendered response.
#[derive(Clone, Copy, PartialEq, Eq, Structural, Debug)]
pub enum ActionKind {
    /// Delete the rendered response.
    Delete,
    /// Re-render the same source at the wide width.
    Widen,
}

/// A structured action identifier: the action kind and the identity of the
/// user the response was rendered for.
#[derive(Clone, Copy, PartialEq, Eq, Structural, Debug)]
pub struct ActionId {
    pub kind: ActionKind,
    pub owner: u64,
}

/// The identifier prefix naming an action kind: `delete` or `widen`.
pub open spec fn kind_prefix(kind: ActionKind) -> Seq<u8> {
    match kind {
        ActionKind::Delete => seq![100u8, 101u8, 108u8, 101u8, 116u8, 101u8],  // "delete"
        ActionKind::Widen => seq![119u8, 105u8, 100u8, 101u8, 110u8],  // "widen"
    }
}

/// The serialized form of an action identifier: the kind prefix followed by
/// the owner in decimal.
pub open spec fn encode_action_id_spec(a: ActionId) -> Seq<u8> {
    kind_prefix(a.kind) + dec_digits(a.owner as nat)
}

/// The identifier prefix for `kind`, as bytes.
fn kind_prefix_vec(kind: ActionKind) -> (r: Vec<u8>)
    ensures
        r@ == kind_prefix(kind),
{
    let r: Vec<u8> = match kind {
        ActionKind::Delete => vec![100u8, 101u8, 108u8, 101u8, 116u8, 101u8],
        ActionKind::Widen => vec![119u8, 105u8, 100u8, 101u8, 110u8],
    };
    proof {
        assert(r@ =~= kind_prefix(kind));
    }
    r
}

/// Serializes an action identifier.
pub fn encode_action_id(a: ActionId) -> (r: Vec<u8>)
    ensures
        r@ == encode_action_id_spec(a),
{
    let mut r = kind_prefix_vec(a.kind);
    let digits = u64_to_dec(a.owner);
    crate::bytes::push_bytes(&mut r, &digits);
    r
}

/// Whether a digit string is a well-formed `u64`: non-empty, all digits, and
/// within range.
pub open spec fn parses_as_u64(s: Seq<u8>) -> bool {
    s.len() > 0 && is_digits(s) && digits_value(s) <= u64::MAX
}

/// What deserializing an action identifier yields: the kind named by the
/// prefix and the owner parsed from the rest, or nothing if neither prefix
/// matches or the rest is not a well-formed decimal `u64`.
pub open spec fn decode_action_id_spec(s: Seq<u8>) -> Option<ActionId> {
    if is_prefix_of(kind_prefix(ActionKind::Delete), s) {
        let rest = s.subrange(6, s.len() as int);
        if parses_as_u64(rest) {
            Some(ActionId { kind: ActionKind::Delete, owner: digits_value(rest) as u64 })
        } else {
            None
        }
    } else if is_prefix_of(kind_prefix(ActionKind::Widen), s) {
        let rest = s.subrange(5, s.len() as int);
        if parses_as_u64(rest) {
            Some(ActionId { kind: ActionKind::Widen, owner: digits_value(rest) as u64 })
        } else {
            None
        }
    } else {
        None
    }
}

/// Deserializes an action identifier.
pub fn decode_action_id(s: &Vec<u8>) -> (r: Option<ActionId>)
    ensures
        r == decode_action_id_spec(s@),
{
    let delete_prefix = kind_prefix_vec(ActionKind::Delete);
    if starts_with_bytes(s, &delete_prefix) {
        let rest = sub_bytes(s, 6, s.len());
        return match parse_u64_dec(&rest) {
            Some(owner) => Some(ActionId { kind: ActionKind::Delete, owner }),
            None => None,
        };
    }
    let widen_prefix = kind_prefix_vec(ActionKind::Widen);
    if starts_with_bytes(s, &widen_prefix) {
        let rest = sub_bytes(s, 5, s.len());
        return match parse_u64_dec(&rest) {
            Some(owner) => Some(ActionId { kind: ActionKind::Widen, owner }),
            None => None,
        };
    }
    None
}

/// Serializing an action identifier and deserializing it yields back the
/// identical kind and owner, whatever they are. Ownership decisions therefore
/// survive the round trip through the chat gateway and a process restart.
pub proof fn lemma_action_id_round_trip(a: ActionId)
    ensures
        decode_action_id_spec(encode_action_id_spec(a)) == Some(a),
{
    let s = encode_action_id_spec(a);
    lemma_dec_digits_value(a.owner as nat);
    match a.kind {
        ActionKind::Delete => {
            assert(s.subrange(0, 6) =~= kind_prefix(ActionKind::Delete));
            assert(s.subrange(6, s.len() as int) =~= dec_digits(a.owner as nat));
        },
        ActionKind::Widen => {
            assert(s[0] == 119);
            assert(!is_prefix_of(kind_prefix(ActionKind::Delete), s)) by {
                if is_prefix_of(kind_prefix(ActionKind::Delete), s) {
                    assert(s.subrange(0, 6)[0] == s[0]);
                }
            }
            assert(s.subrange(0, 5) =~= kind_prefix(ActionKind::Widen));
            assert(s.subrange(5, s.len() as int) =~= dec_digits(a.owner as nat));
        },
    }
}

/// The ownership check: a follow-up action is permitted exactly when the
/// invoker is the identity embedded in the action identifier. No cache is
/// consulted and nothing is mutated.
pub fn action_permitted(action: ActionId, invoker: u64) -> (r: bool)
    ensures
        r == (action.owner == invoker),
{
    action.owner == invoker
}

/// What a widen click resolves to.
pub enum WidenDecision<'a> {
    /// The invoker is not the owner embedded in the action identifier; the
    /// original response stays unchanged.
    Denied,
    /// The correlation is no longer remembered (for example after a process
    /// restart); no render is attempted.
    Unknown,
    /// The action is permitted and correlated: re-render this source, at the
    /// wide width, for this owner.
    Render { source: &'a Vec<u8>, owner: u64 },
}

/// Decides a widen click: ownership first, from the identifier alone; then
/// the correlation lookup for the cached source. Takes the caches read-only,
/// so no decision mutates them.
pub fn widen_click<'a>(
    ctx: &'a BotContext,
    response_id: u64,
    action: ActionId,
    invoker: u64,
) -> (d: WidenDecision<'a>)
    ensures
        action.owner != invoker ==> d is Denied,
        action.owner == invoker && !ctx.widen().contains_key(response_id) ==> d is Unknown,
        action.owner == invoker && ctx.widen().contains_key(response_id) ==> (d matches
            WidenDecision::Render { source, owner } && source@ == ctx.widen()[response_id].latex@
            && owner == invoker),
{
    if !action_permitted(action, invoker) {
        return WidenDecision::Denied;
    }
    match ctx.widen_info(response_id) {
        Some(entry) => WidenDecision::Render { source: &entry.latex, owner: invoker },
        None => WidenDecision::Unknown,
    }
}

/// The notice shown when an action's correlation is no longer remembered,
/// for example when the control predates a process restart.
pub fn unknown_correlation_message() -> (r: &'static str)
    ensures
        r@ == "I don't remember that button. Was it before a restart?"@,
{
    "I don't remember that button. Was it before a restart?"
}

/// The notice shown to a user who clicked a control that was not rendered
/// for them.
pub fn interaction_unauthorized_message(user_id: u64) -> (r: &'static str)
    ensures
        user_id == 140579104222085121u64 ==> r@ == "Bad bean, this isn't yours to click!"@,
        user_id != 140579104222085121u64 ==> r@
            == "Good job. But this output was not generated for you, you cannot modify it."@,
{
    if user_id == 140579104222085121u64 {
        "Bad bean, this isn't yours to click!"
    } else {
        "Good job. But this output was not generated for you, you cannot modify it."
    }
}

} // verus!
