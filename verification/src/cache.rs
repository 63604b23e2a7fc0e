//! The interaction-correlation caches and the rendered-response lifecycle.
//!
//! `BotContext` owns the two in-memory maps that let a stateless chat front
//! end support follow-up actions on a rendered result without a database: one
//! from an inbound message id to the id of the bot's response, and one from a
//! response id to the widening information kept only when the render
//! overflowed. Both are plain maps passed explicitly to every handler; they
//! are lost on restart, and ownership decisions deliberately do not depend on
//! them (see the authorization module).
use crate::gate::ActionKind;
use std::collections::HashMap;
use vstd::prelude::*;

verus! {

broadcast use vstd::std_specs::hash::group_hash_axioms;

/// What is needed to widen a rendered response later: who it was rendered
/// for, and the original source to re-render.
pub struct WidenEntry {
    /// Owner of the original message.
    pub owner: u64,
    /// Source text used to generate the original response.
    pub latex: Vec<u8>,
}

/// The process-wide render bookkeeping: the correlation caches and the
/// renderer image reference.
pub struct BotContext {
    rendered_cache: HashMap<u64, u64>,
    widen_cache: HashMap<u64, WidenEntry>,
    renderer_image: Vec<u8>,
}

impl BotContext {
    /// The correlation cache: inbound message id to response message id.
    pub closed spec fn rendered(&self) -> Map<u64, u64> {
        self.rendered_cache@
    }

    /// The widen cache: response message id to widening information.
    pub closed spec fn widen(&self) -> Map<u64, WidenEntry> {
        self.widen_cache@
    }

    /// The renderer image reference.
    pub closed spec fn image(&self) -> Seq<u8> {
        self.renderer_image@
    }

    /// A fresh context with empty caches.
    pub fn new(renderer_image: Vec<u8>) -> (r: Self)
        ensures
            r.rendered() == Map::<u64, u64>::empty(),
            r.widen() == Map::<u64, WidenEntry>::empty(),
            r.image() == renderer_image@,
    {
        BotContext {
            rendered_cache: HashMap::new(),
            widen_cache: HashMap::new(),
            renderer_image,
        }
    }

    /// The renderer image reference.
    pub fn renderer_image(&self) -> (r: &Vec<u8>)
        ensures
            r@ == self.image(),
    {
        &self.renderer_image
    }

    /// The id of the bot's response to this inbound message, if one is
    /// remembered.
    pub fn rendered_response_id(&self, message_id: u64) -> (r: Option<u64>)
        ensures
            match r {
                Some(id) => self.rendered().contains_key(message_id) && id == self.rendered()[message_id],
                None => !self.rendered().contains_key(message_id),
            },
    {
        match self.rendered_cache.get(&message_id) {
            Some(id) => Some(*id),
            None => None,
        }
    }

    /// Remembers the bot's response to an inbound message, superseding any
    /// previous entry for that message.
    pub fn register_rendered_response_id(&mut self, message_id: u64, response_id: u64)
        ensures
            final(self).rendered() == old(self).rendered().insert(message_id, response_id),
            final(self).widen() == old(self).widen(),
            final(self).image() == old(self).image(),
    {
        self.rendered_cache.insert(message_id, response_id);
    }

    /// The widening information for a response, if the response can be
    /// widened.
    pub fn widen_info(&self, response_id: u64) -> (r: Option<&WidenEntry>)
        ensures
            match r {
                Some(entry) => self.widen().contains_key(response_id) && *entry == self.widen()[response_id],
                None => !self.widen().contains_key(response_id),
            },
    {
        self.widen_cache.get(&response_id)
    }

    /// Remembers that a response can be widened, and for whom.
    pub fn register_widen_info(&mut self, response_id: u64, info: WidenEntry)
        ensures
            final(self).widen() == old(self).widen().insert(response_id, info),
            final(self).rendered() == old(self).rendered(),
            final(self).image() == old(self).image(),
    {
        self.widen_cache.insert(response_id, info);
    }

    /// Forgets a response's widening information: once widened, a response
    /// carries no widen affordance any more.
    pub fn forget_widen_info(&mut self, response_id: u64)
        ensures
            final(self).widen() == old(self).widen().remove(response_id),
            final(self).rendered() == old(self).rendered(),
            final(self).image() == old(self).image(),
    {
        self.widen_cache.remove(&response_id);
    }

    /// Registers one finished render: the response supersedes any previous
    /// response to the same inbound message, and widening information is kept
    /// exactly when the render overflowed.
    pub fn record_render_result(
        &mut self,
        inbound_id: u64,
        response_id: u64,
        owner: u64,
        source: Vec<u8>,
        overflow: bool,
    )
        ensures
            final(self).rendered() == old(self).rendered().insert(inbound_id, response_id),
            overflow ==> final(self).widen() == old(self).widen().insert(
                response_id,
                WidenEntry { owner, latex: source },
            ),
            !overflow ==> final(self).widen() == old(self).widen(),
            final(self).image() == old(self).image(),
    {
        self.rendered_cache.insert(inbound_id, response_id);
        if overflow {
            self.widen_cache.insert(response_id, WidenEntry { owner, latex: source });
        }
    }
}

/// Re-render supersession law: when the same inbound message is rendered
/// twice, the second render finds exactly the first response as its
/// best-effort delete target, and afterwards the inbound message has exactly
/// one live correlation entry — the second response.
pub proof fn lemma_rerender_supersession(
    m0: Map<u64, u64>,
    inbound_id: u64,
    first_response: u64,
    second_response: u64,
)
    ensures
        m0.insert(inbound_id, first_response)[inbound_id] == first_response,
        m0.insert(inbound_id, first_response).insert(inbound_id, second_response) == m0.insert(
            inbound_id,
            second_response,
        ),
        m0.insert(inbound_id, first_response).insert(inbound_id, second_response)[inbound_id]
            == second_response,
{
    assert(m0.insert(inbound_id, first_response).insert(inbound_id, second_response) =~= m0.insert(
        inbound_id,
        second_response,
    ));
}

/// The lifecycle of one rendered response.
#[derive(Clone, Copy, PartialEq, Eq, Structural, Debug)]
pub enum ResponseState {
    /// Rendered without overflowing: it can only be deleted.
    RenderedPlain,
    /// Rendered with overflow: it can be deleted or widened.
    RenderedOverflowed,
    /// Deleted: terminal, whatever the prior state.
    Deleted,
}

/// The allowed lifecycle transitions: widening is possible only from an
/// overflowed render and re-enters the plain rendered state with a fresh
/// delete-only affordance; deletion is possible from either rendered state
/// and is terminal.
pub open spec fn lifecycle_step(s: ResponseState, a: ActionKind) -> Option<ResponseState> {
    match (s, a) {
        (ResponseState::RenderedPlain, ActionKind::Delete) => Some(ResponseState::Deleted),
        (ResponseState::RenderedOverflowed, ActionKind::Delete) => Some(ResponseState::Deleted),
        (ResponseState::RenderedOverflowed, ActionKind::Widen) => Some(
            ResponseState::RenderedPlain,
        ),
        _ => None,
    }
}

/// Applies one lifecycle transition, or reports that the action is not
/// allowed in this state.
pub fn response_transition(s: ResponseState, a: ActionKind) -> (r: Option<ResponseState>)
    ensures
        r == lifecycle_step(s, a),
{
    match (s, a) {
        (ResponseState::RenderedPlain, ActionKind::Delete) => Some(ResponseState::Deleted),
        (ResponseState::RenderedOverflowed, ActionKind::Delete) => Some(ResponseState::Deleted),
        (ResponseState::RenderedOverflowed, ActionKind::Widen) => Some(
            ResponseState::RenderedPlain,
        ),
        _ => None,
    }
}

/// A deleted response accepts no further action, and widening is only ever
/// possible from an overflowed render.
pub proof fn lemma_lifecycle_terminal(s: ResponseState, a: ActionKind)
    ensures
        lifecycle_step(ResponseState::Deleted, a) is None,
        lifecycle_step(s, ActionKind::Widen) is Some ==> s == ResponseState::RenderedOverflowed,
{
}

} // verus!
