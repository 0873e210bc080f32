//! Tests of the two-namespace symbol resolver.
use vt_tablegen::definitions::{
    Action, State, Symbol, action_from_str, resolve_symbol, state_from_str,
};

#[test]
fn resolves_every_state_name() {
    assert_eq!(state_from_str("State::Anywhere"), Ok(State::Anywhere));
    assert_eq!(state_from_str("State::CsiEntry"), Ok(State::CsiEntry));
    assert_eq!(state_from_str("State::CsiIgnore"), Ok(State::CsiIgnore));
    assert_eq!(state_from_str("State::CsiIntermediate"), Ok(State::CsiIntermediate));
    assert_eq!(state_from_str("State::CsiParam"), Ok(State::CsiParam));
    assert_eq!(state_from_str("State::DcsEntry"), Ok(State::DcsEntry));
    assert_eq!(state_from_str("State::DcsIgnore"), Ok(State::DcsIgnore));
    assert_eq!(state_from_str("State::DcsIntermediate"), Ok(State::DcsIntermediate));
    assert_eq!(state_from_str("State::DcsParam"), Ok(State::DcsParam));
    assert_eq!(state_from_str("State::DcsPassthrough"), Ok(State::DcsPassthrough));
    assert_eq!(state_from_str("State::Escape"), Ok(State::Escape));
    assert_eq!(state_from_str("State::EscapeIntermediate"), Ok(State::EscapeIntermediate));
    assert_eq!(state_from_str("State::Ground"), Ok(State::Ground));
    assert_eq!(state_from_str("State::OscString"), Ok(State::OscString));
    assert_eq!(state_from_str("State::SosPmApcString"), Ok(State::SosPmApcString));
    assert_eq!(state_from_str("State::Utf8"), Ok(State::Utf8));
}

#[test]
fn resolves_every_action_name() {
    assert_eq!(action_from_str("Action::None"), Ok(Action::Nop));
    assert_eq!(action_from_str("Action::Clear"), Ok(Action::Clear));
    assert_eq!(action_from_str("Action::Collect"), Ok(Action::Collect));
    assert_eq!(action_from_str("Action::CsiDispatch"), Ok(Action::CsiDispatch));
    assert_eq!(action_from_str("Action::EscDispatch"), Ok(Action::EscDispatch));
    assert_eq!(action_from_str("Action::Execute"), Ok(Action::Execute));
    assert_eq!(action_from_str("Action::Hook"), Ok(Action::Hook));
    assert_eq!(action_from_str("Action::Ignore"), Ok(Action::Ignore));
    assert_eq!(action_from_str("Action::OscEnd"), Ok(Action::OscEnd));
    assert_eq!(action_from_str("Action::OscPut"), Ok(Action::OscPut));
    assert_eq!(action_from_str("Action::OscStart"), Ok(Action::OscStart));
    assert_eq!(action_from_str("Action::Param"), Ok(Action::Param));
    assert_eq!(action_from_str("Action::Print"), Ok(Action::Print));
    assert_eq!(action_from_str("Action::Put"), Ok(Action::Put));
    assert_eq!(action_from_str("Action::Unhook"), Ok(Action::Unhook));
    assert_eq!(action_from_str("Action::BeginUtf8"), Ok(Action::BeginUtf8));
}

#[test]
fn rejects_names_outside_the_fixed_maps() {
    assert_eq!(state_from_str("State::Nowhere"), Err(()));
    assert_eq!(state_from_str("Action::Print"), Err(()));
    assert_eq!(state_from_str("state::ground"), Err(()));
    assert_eq!(state_from_str("Ground"), Err(()));
    assert_eq!(state_from_str(""), Err(()));
    assert_eq!(action_from_str("Action::Sing"), Err(()));
    assert_eq!(action_from_str("State::Ground"), Err(()));
    assert_eq!(action_from_str("Action::print"), Err(()));
}

#[test]
fn tags_each_symbol_with_its_family() {
    assert_eq!(resolve_symbol("State::Escape"), Ok(Symbol::State(State::Escape)));
    assert_eq!(resolve_symbol("Action::Execute"), Ok(Symbol::Action(Action::Execute)));
    assert_eq!(resolve_symbol("Escape"), Err(()));
}
