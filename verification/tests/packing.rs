//! Tests of the transition encoder: nibble layout and numeric codes.
use vt_tablegen::definitions::{Action, State};
use vt_tablegen::transition::Transition;

#[test]
fn pack_u8() {
    let transition = Transition::StateAction(State::CsiParam, Action::Collect);
    assert_eq!(transition.pack_u8(), 0x24);
}

#[test]
fn pack_state_only_leaves_action_nibble_zero() {
    assert_eq!(Transition::State(State::Ground).pack_u8(), 0x0c);
    assert_eq!(Transition::State(State::Anywhere).pack_u8(), 0x00);
    assert_eq!(Transition::State(State::Utf8).pack_u8(), 0x0f);
}

#[test]
fn pack_action_only_leaves_state_nibble_zero() {
    assert_eq!(Transition::Action(Action::Print).pack_u8(), 0xc0);
    assert_eq!(Transition::Action(Action::Nop).pack_u8(), 0x00);
    assert_eq!(Transition::Action(Action::BeginUtf8).pack_u8(), 0xf0);
}

#[test]
fn pack_both_fills_both_nibbles() {
    assert_eq!(Transition::StateAction(State::Utf8, Action::BeginUtf8).pack_u8(), 0xff);
    assert_eq!(Transition::StateAction(State::Escape, Action::Clear).pack_u8(), 0x1a);
}

#[test]
fn pack_roundtrips_through_mask_and_shift() {
    for state in 0u8..16 {
        for action in 0u8..16 {
            let packed = (action << 4) | state;
            assert_eq!(packed & 0x0f, state);
            assert_eq!((packed >> 4) & 0x0f, action);
        }
    }
}

#[test]
fn state_codes_follow_declaration_order() {
    assert_eq!(State::Anywhere.code(), 0);
    assert_eq!(State::CsiParam.code(), 4);
    assert_eq!(State::Ground.code(), 12);
    assert_eq!(State::Utf8.code(), 15);
}

#[test]
fn action_codes_follow_declaration_order() {
    assert_eq!(Action::Nop.code(), 0);
    assert_eq!(Action::Collect.code(), 2);
    assert_eq!(Action::Param.code(), 11);
    assert_eq!(Action::BeginUtf8.code(), 15);
}
