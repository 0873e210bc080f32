//! The two fixed symbol namespaces of the table language: the sixteen parser
//! states and the sixteen actions, each with its 4-bit numeric code, and the
//! resolver that maps a textual name to its enumerated value.
use vstd::prelude::*;

verus! {

/// One node of the terminal-escape parser's finite-state machine.
#[derive(Clone, Copy, Debug, PartialEq, Eq, Structural)]
pub enum State {
    Anywhere,
    CsiEntry,
    CsiIgnore,
    CsiIntermediate,
    CsiParam,
    DcsEntry,
    DcsIgnore,
    DcsIntermediate,
    DcsParam,
    DcsPassthrough,
    Escape,
    EscapeIntermediate,
    Ground,
    OscString,
    SosPmApcString,
    Utf8,
}

/// A side-effect tag telling the runtime parser what to do on a transition.
/// `Nop` is the no-op default; the table language names it `Action::None`.
#[derive(Clone, Copy, Debug, PartialEq, Eq, Structural)]
pub enum Action {
    Nop,
    Clear,
    Collect,
    CsiDispatch,
    EscDispatch,
    Execute,
    Hook,
    Ignore,
    OscEnd,
    OscPut,
    OscStart,
    Param,
    Print,
    Put,
    Unhook,
    BeginUtf8,
}

/// The numeric code of a state: its position in declaration order.
/// `Anywhere` has code 0 and is the implicit default state.
pub open spec fn state_code(s: State) -> u8 {
    match s {
        State::Anywhere => 0,
        State::CsiEntry => 1,
        State::CsiIgnore => 2,
        State::CsiIntermediate => 3,
        State::CsiParam => 4,
        State::DcsEntry => 5,
        State::DcsIgnore => 6,
        State::DcsIntermediate => 7,
        State::DcsParam => 8,
        State::DcsPassthrough => 9,
        State::Escape => 10,
        State::EscapeIntermediate => 11,
        State::Ground => 12,
        State::OscString => 13,
        State::SosPmApcString => 14,
        State::Utf8 => 15,
    }
}

/// The numeric code of an action: its position in declaration order.
/// `Nop` has code 0 and is the implicit no-op action.
pub open spec fn action_code(a: Action) -> u8 {
    match a {
        Action::Nop => 0,
        Action::Clear => 1,
        Action::Collect => 2,
        Action::CsiDispatch => 3,
        Action::EscDispatch => 4,
        Action::Execute => 5,
        Action::Hook => 6,
        Action::Ignore => 7,
        Action::OscEnd => 8,
        Action::OscPut => 9,
        Action::OscStart => 10,
        Action::Param => 11,
        Action::Print => 12,
        Action::Put => 13,
        Action::Unhook => 14,
        Action::BeginUtf8 => 15,
    }
}

impl State {
    /// The 4-bit numeric code of this state.
    pub fn code(self) -> (c: u8)
        ensures
            c == state_code(self),
            c < 16,
    {
        match self {
            State::Anywhere => 0,
            State::CsiEntry => 1,
            State::CsiIgnore => 2,
            State::CsiIntermediate => 3,
            State::CsiParam => 4,
            State::DcsEntry => 5,
            State::DcsIgnore => 6,
            State::DcsIntermediate => 7,
            State::DcsParam => 8,
            State::DcsPassthrough => 9,
            State::Escape => 10,
            State::EscapeIntermediate => 11,
            State::Ground => 12,
            State::OscString => 13,
            State::SosPmApcString => 14,
            State::Utf8 => 15,
        }
    }
}

impl Action {
    /// The 4-bit numeric code of this action.
    pub fn code(self) -> (c: u8)
        ensures
            c == action_code(self),
            c < 16,
    {
        match self {
            Action::Nop => 0,
            Action::Clear => 1,
            Action::Collect => 2,
            Action::CsiDispatch => 3,
            Action::EscDispatch => 4,
            Action::Execute => 5,
            Action::Hook => 6,
            Action::Ignore => 7,
            Action::OscEnd => 8,
            Action::OscPut => 9,
            Action::OscStart => 10,
            Action::Param => 11,
            Action::Print => 12,
            Action::Put => 13,
            Action::Unhook => 14,
            Action::BeginUtf8 => 15,
        }
    }
}

/// Compares two string slices character by character.
fn str_eq(a: &str, b: &str) -> (r: bool)
    ensures
        r == (a@ == b@),
{
    let alen = a.unicode_len();
    let blen = b.unicode_len();
    if alen != blen {
        return false;
    }
    let mut i: usize = 0;
    while i < alen
        invariant
            i <= alen,
            alen == a@.len(),
            blen == b@.len(),
            alen == blen,
            forall|j: int| 0 <= j < i ==> a@[j] == b@[j],
        decreases alen - i,
    {
        if a.get_char(i) != b.get_char(i) {
            return false;
        }
        i = i + 1;
    }
    proof {
        assert(a@ =~= b@);
    }
    true
}

/// The state, if any, whose qualified name is the given text.
pub open spec fn spec_state_from_str(s: Seq<char>) -> Option<State> {
    if s == "State::Anywhere"@ {
        Some(State::Anywhere)
    } else if s == "State::CsiEntry"@ {
        Some(State::CsiEntry)
    } else if s == "State::CsiIgnore"@ {
        Some(State::CsiIgnore)
    } else if s == "State::CsiIntermediate"@ {
        Some(State::CsiIntermediate)
    } else if s == "State::CsiParam"@ {
        Some(State::CsiParam)
    } else if s == "State::DcsEntry"@ {
        Some(State::DcsEntry)
    } else if s == "State::DcsIgnore"@ {
        Some(State::DcsIgnore)
    } else if s == "State::DcsIntermediate"@ {
        Some(State::DcsIntermediate)
    } else if s == "State::DcsParam"@ {
        Some(State::DcsParam)
    } else if s == "State::DcsPassthrough"@ {
        Some(State::DcsPassthrough)
    } else if s == "State::Escape"@ {
        Some(State::Escape)
    } else if s == "State::EscapeIntermediate"@ {
        Some(State::EscapeIntermediate)
    } else if s == "State::Ground"@ {
        Some(State::Ground)
    } else if s == "State::OscString"@ {
        Some(State::OscString)
    } else if s == "State::SosPmApcString"@ {
        Some(State::SosPmApcString)
    } else if s == "State::Utf8"@ {
        Some(State::Utf8)
    } else {
        None
    }
}

/// The action, if any, whose qualified name is the given text.
pub open spec fn spec_action_from_str(s: Seq<char>) -> Option<Action> {
    if s == "Action::None"@ {
        Some(Action::Nop)
    } else if s == "Action::Clear"@ {
        Some(Action::Clear)
    } else if s == "Action::Collect"@ {
        Some(Action::Collect)
    } else if s == "Action::CsiDispatch"@ {
        Some(Action::CsiDispatch)
    } else if s == "Action::EscDispatch"@ {
        Some(Action::EscDispatch)
    } else if s == "Action::Execute"@ {
        Some(Action::Execute)
    } else if s == "Action::Hook"@ {
        Some(Action::Hook)
    } else if s == "Action::Ignore"@ {
        Some(Action::Ignore)
    } else if s == "Action::OscEnd"@ {
        Some(Action::OscEnd)
    } else if s == "Action::OscPut"@ {
        Some(Action::OscPut)
    } else if s == "Action::OscStart"@ {
        Some(Action::OscStart)
    } else if s == "Action::Param"@ {
        Some(Action::Param)
    } else if s == "Action::Print"@ {
        Some(Action::Print)
    } else if s == "Action::Put"@ {
        Some(Action::Put)
    } else if s == "Action::Unhook"@ {
        Some(Action::Unhook)
    } else if s == "Action::BeginUtf8"@ {
        Some(Action::BeginUtf8)
    } else {
        None
    }
}

/// Resolves a textual state name, or fails when the text is not one of the
/// sixteen fixed state names.
pub fn state_from_str(s: &str) -> (r: Result<State, ()>)
    ensures
        match r {
            Ok(st) => spec_state_from_str(s@) == Some(st),
            Err(_) => spec_state_from_str(s@) is None,
        },
{
    if str_eq(s, "State::Anywhere") {
        Ok(State::Anywhere)
    } else if str_eq(s, "State::CsiEntry") {
        Ok(State::CsiEntry)
    } else if str_eq(s, "State::CsiIgnore") {
        Ok(State::CsiIgnore)
    } else if str_eq(s, "State::CsiIntermediate") {
        Ok(State::CsiIntermediate)
    } else if str_eq(s, "State::CsiParam") {
        Ok(State::CsiParam)
    } else if str_eq(s, "State::DcsEntry") {
        Ok(State::DcsEntry)
    } else if str_eq(s, "State::DcsIgnore") {
        Ok(State::DcsIgnore)
    } else if str_eq(s, "State::DcsIntermediate") {
        Ok(State::DcsIntermediate)
    } else if str_eq(s, "State::DcsParam") {
        Ok(State::DcsParam)
    } else if str_eq(s, "State::DcsPassthrough") {
        Ok(State::DcsPassthrough)
    } else if str_eq(s, "State::Escape") {
        Ok(State::Escape)
    } else if str_eq(s, "State::EscapeIntermediate") {
        Ok(State::EscapeIntermediate)
    } else if str_eq(s, "State::Ground") {
        Ok(State::Ground)
    } else if str_eq(s, "State::OscString") {
        Ok(State::OscString)
    } else if str_eq(s, "State::SosPmApcString") {
        Ok(State::SosPmApcString)
    } else if str_eq(s, "State::Utf8") {
        Ok(State::Utf8)
    } else {
        Err(())
    }
}

/// Resolves a textual action name, or fails when the text is not one of the
/// sixteen fixed action names.
pub fn action_from_str(s: &str) -> (r: Result<Action, ()>)
    ensures
        match r {
            Ok(a) => spec_action_from_str(s@) == Some(a),
            Err(_) => spec_action_from_str(s@) is None,
        },
{
    if str_eq(s, "Action::None") {
        Ok(Action::Nop)
    } else if str_eq(s, "Action::Clear") {
        Ok(Action::Clear)
    } else if str_eq(s, "Action::Collect") {
        Ok(Action::Collect)
    } else if str_eq(s, "Action::CsiDispatch") {
        Ok(Action::CsiDispatch)
    } else if str_eq(s, "Action::EscDispatch") {
        Ok(Action::EscDispatch)
    } else if str_eq(s, "Action::Execute") {
        Ok(Action::Execute)
    } else if str_eq(s, "Action::Hook") {
        Ok(Action::Hook)
    } else if str_eq(s, "Action::Ignore") {
        Ok(Action::Ignore)
    } else if str_eq(s, "Action::OscEnd") {
        Ok(Action::OscEnd)
    } else if str_eq(s, "Action::OscPut") {
        Ok(Action::OscPut)
    } else if str_eq(s, "Action::OscStart") {
        Ok(Action::OscStart)
    } else if str_eq(s, "Action::Param") {
        Ok(Action::Param)
    } else if str_eq(s, "Action::Print") {
        Ok(Action::Print)
    } else if str_eq(s, "Action::Put") {
        Ok(Action::Put)
    } else if str_eq(s, "Action::Unhook") {
        Ok(Action::Unhook)
    } else if str_eq(s, "Action::BeginUtf8") {
        Ok(Action::BeginUtf8)
    } else {
        Err(())
    }
}

/// A resolved symbol, tagged with the namespace it was found in.
#[derive(Clone, Copy, Debug, PartialEq, Eq, Structural)]
pub enum Symbol {
    State(State),
    Action(Action),
}

/// The symbol, if any, whose qualified name is the given text: the two
/// namespaces are disjoint, state names are tried first.
pub open spec fn spec_resolve_symbol(s: Seq<char>) -> Option<Symbol> {
    match spec_state_from_str(s) {
        Some(st) => Some(Symbol::State(st)),
        None => match spec_action_from_str(s) {
            Some(a) => Some(Symbol::Action(a)),
            None => None,
        },
    }
}

/// Resolves a textual name against both namespaces, tagging the result with
/// the family it belongs to.
pub fn resolve_symbol(s: &str) -> (r: Result<Symbol, ()>)
    ensures
        match r {
            Ok(sym) => spec_resolve_symbol(s@) == Some(sym),
            Err(_) => spec_resolve_symbol(s@) is None,
        },
{
    match state_from_str(s) {
        Ok(st) => Ok(Symbol::State(st)),
        Err(_) => match action_from_str(s) {
            Ok(a) => Ok(Symbol::Action(a)),
            Err(_) => Err(()),
        },
    }
}

} // verus!
