//! The transition encoder: a parsed transition is packed into one byte, the
//! destination state's code in the low nibble and the action's code in the
//! high nibble, so that the runtime parser can unpack either with one mask
//! or shift.
use vstd::prelude::*;

use crate::definitions::{Action, State, action_code, state_code};

verus! {

/// What happens when certain input is received: a destination state, an
/// action, or both. A missing state means the default state (code 0), a
/// missing action the no-op action (code 0).
#[derive(Clone, Copy, Debug, PartialEq, Eq, Structural)]
pub enum Transition {
    State(State),
    Action(Action),
    StateAction(State, Action),
}

/// The state nibble a transition encodes: the default state's code 0 when no
/// state is given.
pub open spec fn spec_state_nibble(t: Transition) -> u8 {
    match t {
        Transition::State(s) => state_code(s),
        Transition::Action(_) => 0,
        Transition::StateAction(s, _) => state_code(s),
    }
}

/// The action nibble a transition encodes: the no-op action's code 0 when no
/// action is given.
pub open spec fn spec_action_nibble(t: Transition) -> u8 {
    match t {
        Transition::State(_) => 0,
        Transition::Action(a) => action_code(a),
        Transition::StateAction(_, a) => action_code(a),
    }
}

/// Packs a state code and an action code into one byte: action in the high
/// nibble, state in the low nibble.
pub open spec fn pack_nibbles(state: u8, action: u8) -> u8 {
    (action << 4) | state
}

/// The packed byte a transition encodes.
pub open spec fn spec_pack(t: Transition) -> u8 {
    pack_nibbles(spec_state_nibble(t), spec_action_nibble(t))
}

/// The state code a consumer reads back from a packed byte: the low nibble.
pub open spec fn decode_state(packed: u8) -> u8 {
    packed & 0x0f
}

/// The action code a consumer reads back from a packed byte: the high nibble.
pub open spec fn decode_action(packed: u8) -> u8 {
    (packed >> 4) & 0x0f
}

impl Transition {
    /// Packs this transition into one byte.
    pub fn pack_u8(&self) -> (packed: u8)
        ensures
            packed == spec_pack(*self),
    {
        let state: u8 = match *self {
            Transition::State(s) => s.code(),
            Transition::Action(_) => 0,
            Transition::StateAction(s, _) => s.code(),
        };
        let action: u8 = match *self {
            Transition::State(_) => 0,
            Transition::Action(a) => a.code(),
            Transition::StateAction(_, a) => a.code(),
        };
        (action << 4) | state
    }
}

/// Packing round-trips with decoding: for every state code and action code
/// that fit in four bits, the packed byte's low nibble is exactly the state
/// code and its high nibble exactly the action code.
pub proof fn lemma_pack_roundtrip(state: u8, action: u8)
    requires
        state < 16,
        action < 16,
    ensures
        decode_state(pack_nibbles(state, action)) == state,
        decode_action(pack_nibbles(state, action)) == action,
{
    assert(((action << 4) | state) & 0x0f == state) by (bit_vector)
        requires
            state < 16,
            action < 16,
    ;
    assert((((action << 4) | state) >> 4) & 0x0f == action) by (bit_vector)
        requires
            state < 16,
            action < 16,
    ;
}

/// Both nibbles decoded from any packed byte fit in four bits, so a
/// consumer indexing 16 rows by the decoded state code, or 16 action tags
/// by the decoded action code, can never run out of range.
pub proof fn lemma_decode_bounded(packed: u8)
    ensures
        decode_state(packed) < 16,
        decode_action(packed) < 16,
{
    assert(packed & 0x0f < 16) by (bit_vector);
    assert((packed >> 4) & 0x0f < 16) by (bit_vector);
}

/// Every state code and every action code fits in four bits.
pub proof fn lemma_codes_bounded(s: State, a: Action)
    ensures
        state_code(s) < 16,
        action_code(a) < 16,
{
}

/// The byte a transition packs to decodes back to exactly the transition's
/// state nibble and action nibble.
pub proof fn lemma_pack_u8_roundtrip(t: Transition)
    ensures
        decode_state(spec_pack(t)) == spec_state_nibble(t),
        decode_action(spec_pack(t)) == spec_action_nibble(t),
{
    match t {
        Transition::State(s) => lemma_codes_bounded(s, Action::Nop),
        Transition::Action(a) => lemma_codes_bounded(State::Anywhere, a),
        Transition::StateAction(s, a) => lemma_codes_bounded(s, a),
    }
    lemma_pack_roundtrip(spec_state_nibble(t), spec_action_nibble(t));
}

} // verus!
