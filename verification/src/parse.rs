//! The rule parser: a recursive-descent reader of the table language.
//!
//! The grammar:
//! ```text
//! program       := state_block*  (',' may follow a block)
//! state_block   := state_name '=>' '{' rule* '}'
//! rule          := input_pattern '=>' transition_expr ','?
//! input_pattern := INTEGER | INTEGER '..' INTEGER   (the range is inclusive)
//! transition_expr := symbol | '(' symbol ',' symbol ')'
//! INTEGER       := a byte value 0..255, decimal or 0x-prefixed hexadecimal
//! ```
//! A symbol is one of the sixteen state names or sixteen action names.
//! Every parse function is mirrored by a spec function over the character
//! sequence, so the whole front end is a mathematical function of the text.
use vstd::prelude::*;

use crate::definitions::{
    Symbol, spec_resolve_symbol, spec_state_from_str, resolve_symbol, state_from_str,
};
use crate::table::{DefView, InputDefinition, InputMapping, TableDefinition};
use crate::transition::Transition;

verus! {

/// What can go wrong during a compile. Every fault aborts the whole compile;
/// no partial table is ever produced.
#[derive(Clone, Copy, Debug, PartialEq, Eq, Structural)]
pub enum ErrorKind {
    /// Malformed block or rule structure: an unexpected character where a
    /// delimiter or `=>` was required, or an unclosed block.
    SyntaxError,
    /// A name that is neither a state name nor an action name, or an action
    /// name where a state name is required.
    UnknownSymbol,
    /// An input pattern that is not a byte value or inclusive byte range,
    /// a value over 255, or a range whose start exceeds its end.
    InvalidInputPattern,
    /// A transition expression that is neither a single symbol nor a
    /// two-symbol parenthesized tuple.
    InvalidTransition,
    /// A tuple whose two symbols come from the same family.
    AmbiguousTransition,
}

/// A compile fault: its kind and the character offset it was detected at.
#[derive(Clone, Copy, Debug, PartialEq, Eq, Structural)]
pub struct CompileError {
    pub kind: ErrorKind,
    pub pos: usize,
}

/// The outcome of one parsing step: a value and the position following it,
/// or a fault.
pub enum Step<T> {
    Done { val: T, next: int },
    Fail { kind: ErrorKind, pos: int },
}

/// Whitespace: space, tab, line feed, carriage return.
pub open spec fn is_ws_char(c: char) -> bool {
    c as u32 == 32 || c as u32 == 9 || c as u32 == 10 || c as u32 == 13
}

/// A decimal digit.
pub open spec fn is_digit_char(c: char) -> bool {
    48 <= c as u32 <= 57
}

/// A hexadecimal digit.
pub open spec fn is_hex_char(c: char) -> bool {
    is_digit_char(c) || (97 <= c as u32 <= 102) || (65 <= c as u32 <= 70)
}

/// A character that may stand in a symbol name: a letter, a digit, an
/// underscore, or the colon of a namespace qualifier.
pub open spec fn is_ident_char(c: char) -> bool {
    (97 <= c as u32 <= 122) || (65 <= c as u32 <= 90) || is_digit_char(c) || c as u32 == 95
        || c as u32 == 58
}

/// The character a symbol name may start with: a letter or an underscore.
pub open spec fn is_ident_start_char(c: char) -> bool {
    (97 <= c as u32 <= 122) || (65 <= c as u32 <= 90) || c as u32 == 95
}

/// The numeric value of a decimal digit.
pub open spec fn digit_val(c: char) -> int {
    c as u32 - 48
}

/// The numeric value of a hexadecimal digit.
pub open spec fn hex_val(c: char) -> int {
    if is_digit_char(c) {
        c as u32 - 48
    } else if 97 <= c as u32 <= 102 {
        c as u32 - 87
    } else {
        c as u32 - 55
    }
}

fn is_ws(c: char) -> (r: bool)
    ensures
        r == is_ws_char(c),
{
    let v = c as u32;
    v == 32 || v == 9 || v == 10 || v == 13
}

fn is_digit(c: char) -> (r: bool)
    ensures
        r == is_digit_char(c),
{
    let v = c as u32;
    48 <= v && v <= 57
}

fn is_hex(c: char) -> (r: bool)
    ensures
        r == is_hex_char(c),
{
    let v = c as u32;
    (48 <= v && v <= 57) || (97 <= v && v <= 102) || (65 <= v && v <= 70)
}

fn is_ident(c: char) -> (r: bool)
    ensures
        r == is_ident_char(c),
{
    let v = c as u32;
    (97 <= v && v <= 122) || (65 <= v && v <= 90) || (48 <= v && v <= 57) || v == 95 || v == 58
}

fn is_ident_start(c: char) -> (r: bool)
    ensures
        r == is_ident_start_char(c),
{
    let v = c as u32;
    (97 <= v && v <= 122) || (65 <= v && v <= 90) || v == 95
}

/// The first position at or after `p` holding a non-whitespace character.
pub open spec fn spec_skip_ws(s: Seq<char>, p: int) -> int
    decreases s.len() - p,
{
    if p < s.len() && is_ws_char(s[p]) {
        spec_skip_ws(s, p + 1)
    } else {
        p
    }
}

fn skip_ws(s: &str, p: usize) -> (q: usize)
    requires
        p <= s@.len(),
    ensures
        q as int == spec_skip_ws(s@, p as int),
        p <= q <= s@.len(),
{
    let n = s.unicode_len();
    let mut i: usize = p;
    while i < n && is_ws(s.get_char(i))
        invariant
            p <= i <= n,
            n == s@.len(),
            spec_skip_ws(s@, p as int) == spec_skip_ws(s@, i as int),
        decreases n - i,
    {
        i = i + 1;
    }
    i
}

/// The end of the symbol name starting at `p`: the first position at or
/// after `p` holding no identifier character.
pub open spec fn spec_ident_end(s: Seq<char>, p: int) -> int
    decreases s.len() - p,
{
    if p < s.len() && is_ident_char(s[p]) {
        spec_ident_end(s, p + 1)
    } else {
        p
    }
}

fn ident_end(s: &str, p: usize) -> (q: usize)
    requires
        p <= s@.len(),
    ensures
        q as int == spec_ident_end(s@, p as int),
        p <= q <= s@.len(),
        (p as int) < s@.len() && is_ident_char(s@[p as int]) ==> q > p,
{
    let n = s.unicode_len();
    let mut i: usize = p;
    while i < n && is_ident(s.get_char(i))
        invariant
            p <= i <= n,
            n == s@.len(),
            spec_ident_end(s@, p as int) == spec_ident_end(s@, i as int),
        decreases n - i,
    {
        i = i + 1;
    }
    i
}

/// Reads decimal digits starting at `p` onto the already-read value `acc`,
/// failing as soon as the value would exceed a byte.
pub open spec fn spec_dec_digits(s: Seq<char>, p: int, acc: int) -> Step<u8>
    decreases s.len() - p,
{
    if p < s.len() && is_digit_char(s[p]) {
        let v = acc * 10 + digit_val(s[p]);
        if v > 255 {
            Step::Fail { kind: ErrorKind::InvalidInputPattern, pos: p }
        } else {
            spec_dec_digits(s, p + 1, v)
        }
    } else {
        Step::Done { val: acc as u8, next: p }
    }
}

/// Reads hexadecimal digits starting at `p` onto the already-read value
/// `acc`, failing as soon as the value would exceed a byte.
pub open spec fn spec_hex_digits(s: Seq<char>, p: int, acc: int) -> Step<u8>
    decreases s.len() - p,
{
    if p < s.len() && is_hex_char(s[p]) {
        let v = acc * 16 + hex_val(s[p]);
        if v > 255 {
            Step::Fail { kind: ErrorKind::InvalidInputPattern, pos: p }
        } else {
            spec_hex_digits(s, p + 1, v)
        }
    } else {
        Step::Done { val: acc as u8, next: p }
    }
}

/// Reads one byte-valued integer literal at `p`: decimal, or hexadecimal
/// after a `0x` prefix. Anything else is an invalid input pattern.
pub open spec fn spec_parse_int(s: Seq<char>, p: int) -> Step<u8> {
    if p < s.len() && is_digit_char(s[p]) {
        if s[p] as u32 == 48 && p + 2 < s.len() && s[p + 1] as u32 == 120 && is_hex_char(s[p + 2]) {
            spec_hex_digits(s, p + 2, 0)
        } else {
            spec_dec_digits(s, p, 0)
        }
    } else {
        Step::Fail { kind: ErrorKind::InvalidInputPattern, pos: p }
    }
}

fn parse_int(s: &str, p: usize) -> (r: Result<(u8, usize), CompileError>)
    requires
        p <= s@.len(),
    ensures
        match r {
            Ok((v, q)) => spec_parse_int(s@, p as int) == (Step::Done { val: v, next: q as int })
                && p < q <= s@.len(),
            Err(e) => spec_parse_int(s@, p as int) == (Step::<u8>::Fail {
                kind: e.kind,
                pos: e.pos as int,
            }),
        },
{
    let n = s.unicode_len();
    if p >= n || !is_digit(s.get_char(p)) {
        return Err(CompileError { kind: ErrorKind::InvalidInputPattern, pos: p });
    }
    if s.get_char(p) as u32 == 48 && n - p > 2 && s.get_char(p + 1) as u32 == 120 && is_hex(
        s.get_char(p + 2),
    ) {
        // hexadecimal: consume digits after the 0x prefix
        let mut i: usize = p + 2;
        let mut acc: u16 = 0;
        while i < n && is_hex(s.get_char(i))
            invariant
                p + 2 <= i <= n,
                n == s@.len(),
                acc <= 255,
                spec_parse_int(s@, p as int) == spec_hex_digits(s@, p as int + 2, 0),
                spec_hex_digits(s@, p as int + 2, 0) == spec_hex_digits(s@, i as int, acc as int),
            decreases n - i,
        {
            let c = s.get_char(i);
            let d: u16 = if is_digit(c) {
                (c as u32 as u16) - 48
            } else if 97 <= c as u32 && c as u32 <= 102 {
                (c as u32 as u16) - 87
            } else {
                (c as u32 as u16) - 55
            };
            let v: u16 = acc * 16 + d;
            if v > 255 {
                return Err(CompileError { kind: ErrorKind::InvalidInputPattern, pos: i });
            }
            acc = v;
            i = i + 1;
        }
        Ok((acc as u8, i))
    } else {
        let mut i: usize = p;
        let mut acc: u16 = 0;
        while i < n && is_digit(s.get_char(i))
            invariant
                p <= i <= n,
                n == s@.len(),
                acc <= 255,
                spec_parse_int(s@, p as int) == spec_dec_digits(s@, p as int, 0),
                spec_dec_digits(s@, p as int, 0) == spec_dec_digits(s@, i as int, acc as int),
            decreases n - i,
        {
            let c = s.get_char(i);
            let d: u16 = (c as u32 as u16) - 48;
            let v: u16 = acc * 10 + d;
            if v > 255 {
                return Err(CompileError { kind: ErrorKind::InvalidInputPattern, pos: i });
            }
            acc = v;
            i = i + 1;
        }
        Ok((acc as u8, i))
    }
}

/// Combines the two symbols of a tuple transition: exactly one state and one
/// action are permitted, in either order; two symbols of the same family are
/// ambiguous.
pub open spec fn spec_combine_tuple(a: Symbol, b: Symbol, tuple_pos: int, after: int) -> Step<
    Transition,
> {
    match (a, b) {
        (Symbol::State(st), Symbol::Action(ac)) => Step::Done {
            val: Transition::StateAction(st, ac),
            next: after,
        },
        (Symbol::Action(ac), Symbol::State(st)) => Step::Done {
            val: Transition::StateAction(st, ac),
            next: after,
        },
        _ => Step::Fail { kind: ErrorKind::AmbiguousTransition, pos: tuple_pos },
    }
}

/// Reads one transition expression at `p` (leading whitespace allowed):
/// a single state or action name, or a parenthesized pair supplying both.
pub open spec fn spec_parse_transition(s: Seq<char>, p: int) -> Step<Transition> {
    let q = spec_skip_ws(s, p);
    if q < s.len() && s[q] as u32 == 40 {
        let q1 = spec_skip_ws(s, q + 1);
        if !(q1 < s.len() && is_ident_start_char(s[q1])) {
            Step::Fail { kind: ErrorKind::InvalidTransition, pos: q1 }
        } else {
            let e1 = spec_ident_end(s, q1);
            match spec_resolve_symbol(s.subrange(q1, e1)) {
                None => Step::Fail { kind: ErrorKind::UnknownSymbol, pos: q1 },
                Some(sym1) => {
                    let q2 = spec_skip_ws(s, e1);
                    if q2 < s.len() && s[q2] as u32 == 44 {
                        let q3 = spec_skip_ws(s, q2 + 1);
                        if !(q3 < s.len() && is_ident_start_char(s[q3])) {
                            Step::Fail { kind: ErrorKind::InvalidTransition, pos: q3 }
                        } else {
                            let e3 = spec_ident_end(s, q3);
                            match spec_resolve_symbol(s.subrange(q3, e3)) {
                                None => Step::Fail { kind: ErrorKind::UnknownSymbol, pos: q3 },
                                Some(sym2) => {
                                    let q4 = spec_skip_ws(s, e3);
                                    if q4 < s.len() && s[q4] as u32 == 41 {
                                        spec_combine_tuple(sym1, sym2, q, q4 + 1)
                                    } else {
                                        Step::Fail { kind: ErrorKind::InvalidTransition, pos: q4 }
                                    }
                                },
                            }
                        }
                    } else {
                        Step::Fail { kind: ErrorKind::InvalidTransition, pos: q2 }
                    }
                },
            }
        }
    } else if q < s.len() && is_ident_start_char(s[q]) {
        let e = spec_ident_end(s, q);
        match spec_resolve_symbol(s.subrange(q, e)) {
            None => Step::Fail { kind: ErrorKind::UnknownSymbol, pos: q },
            Some(Symbol::State(st)) => Step::Done { val: Transition::State(st), next: e },
            Some(Symbol::Action(ac)) => Step::Done { val: Transition::Action(ac), next: e },
        }
    } else {
        Step::Fail { kind: ErrorKind::InvalidTransition, pos: q }
    }
}

/// Reads one transition expression, resolving each name through the
/// two-namespace symbol resolver.
pub fn parse_transition(s: &str, p: usize) -> (r: Result<(Transition, usize), CompileError>)
    requires
        p <= s@.len(),
    ensures
        match r {
            Ok((t, q)) => spec_parse_transition(s@, p as int) == (Step::Done {
                val: t,
                next: q as int,
            }) && p < q <= s@.len(),
            Err(e) => spec_parse_transition(s@, p as int) == (Step::<Transition>::Fail {
                kind: e.kind,
                pos: e.pos as int,
            }),
        },
{
    let n = s.unicode_len();
    let q = skip_ws(s, p);
    if q < n && s.get_char(q) as u32 == 40 {
        let q1 = skip_ws(s, q + 1);
        if !(q1 < n && is_ident_start(s.get_char(q1))) {
            return Err(CompileError { kind: ErrorKind::InvalidTransition, pos: q1 });
        }
        let e1 = ident_end(s, q1);
        let name1 = s.substring_char(q1, e1);
        let sym1 = match resolve_symbol(name1) {
            Ok(sym) => sym,
            Err(_) => {
                return Err(CompileError { kind: ErrorKind::UnknownSymbol, pos: q1 });
            },
        };
        let q2 = skip_ws(s, e1);
        if !(q2 < n && s.get_char(q2) as u32 == 44) {
            return Err(CompileError { kind: ErrorKind::InvalidTransition, pos: q2 });
        }
        let q3 = skip_ws(s, q2 + 1);
        if !(q3 < n && is_ident_start(s.get_char(q3))) {
            return Err(CompileError { kind: ErrorKind::InvalidTransition, pos: q3 });
        }
        let e3 = ident_end(s, q3);
        let name2 = s.substring_char(q3, e3);
        let sym2 = match resolve_symbol(name2) {
            Ok(sym) => sym,
            Err(_) => {
                return Err(CompileError { kind: ErrorKind::UnknownSymbol, pos: q3 });
            },
        };
        let q4 = skip_ws(s, e3);
        if !(q4 < n && s.get_char(q4) as u32 == 41) {
            return Err(CompileError { kind: ErrorKind::InvalidTransition, pos: q4 });
        }
        match (sym1, sym2) {
            (Symbol::State(st), Symbol::Action(ac)) => Ok((Transition::StateAction(st, ac), q4 + 1)),
            (Symbol::Action(ac), Symbol::State(st)) => Ok((Transition::StateAction(st, ac), q4 + 1)),
            _ => Err(CompileError { kind: ErrorKind::AmbiguousTransition, pos: q }),
        }
    } else if q < n && is_ident_start(s.get_char(q)) {
        let e = ident_end(s, q);
        let name = s.substring_char(q, e);
        match resolve_symbol(name) {
            Err(_) => Err(CompileError { kind: ErrorKind::UnknownSymbol, pos: q }),
            Ok(Symbol::State(st)) => Ok((Transition::State(st), e)),
            Ok(Symbol::Action(ac)) => Ok((Transition::Action(ac), e)),
        }
    } else {
        Err(CompileError { kind: ErrorKind::InvalidTransition, pos: q })
    }
}

/// Reads one input pattern at `p`: a byte value, or two byte values joined
/// by `..` forming an inclusive range whose start must not exceed its end.
pub open spec fn spec_parse_pattern(s: Seq<char>, p: int) -> Step<InputDefinition> {
    match spec_parse_int(s, p) {
        Step::Fail { kind, pos } => Step::Fail { kind, pos },
        Step::Done { val: a, next: q } => {
            let q2 = spec_skip_ws(s, q);
            if q2 + 1 < s.len() && s[q2] as u32 == 46 && s[q2 + 1] as u32 == 46 {
                let q3 = spec_skip_ws(s, q2 + 2);
                match spec_parse_int(s, q3) {
                    Step::Fail { kind, pos } => Step::Fail { kind, pos },
                    Step::Done { val: b, next: q4 } => {
                        if a <= b {
                            Step::Done {
                                val: InputDefinition::Range { start: a, end: b },
                                next: q4,
                            }
                        } else {
                            Step::Fail { kind: ErrorKind::InvalidInputPattern, pos: p }
                        }
                    },
                }
            } else {
                Step::Done { val: InputDefinition::Specific(a), next: q }
            }
        },
    }
}

/// Reads one input pattern.
pub fn parse_input_pattern(s: &str, p: usize) -> (r: Result<
    (InputDefinition, usize),
    CompileError,
>)
    requires
        p <= s@.len(),
    ensures
        match r {
            Ok((d, q)) => spec_parse_pattern(s@, p as int) == (Step::Done {
                val: d,
                next: q as int,
            }) && p < q <= s@.len(),
            Err(e) => spec_parse_pattern(s@, p as int) == (Step::<InputDefinition>::Fail {
                kind: e.kind,
                pos: e.pos as int,
            }),
        },
{
    let n = s.unicode_len();
    let (a, q) = match parse_int(s, p) {
        Ok(v) => v,
        Err(e) => {
            return Err(e);
        },
    };
    let q2 = skip_ws(s, q);
    if n - q2 > 1 && s.get_char(q2) as u32 == 46 && s.get_char(q2 + 1) as u32 == 46 {
        let q3 = skip_ws(s, q2 + 2);
        let (b, q4) = match parse_int(s, q3) {
            Ok(v) => v,
            Err(e) => {
                return Err(e);
            },
        };
        if a <= b {
            Ok((InputDefinition::Range { start: a, end: b }, q4))
        } else {
            Err(CompileError { kind: ErrorKind::InvalidInputPattern, pos: p })
        }
    } else {
        Ok((InputDefinition::Specific(a), q))
    }
}

/// Reads one rule at `p`: an input pattern, `=>`, a transition expression,
/// and an optional trailing comma.
pub open spec fn spec_parse_rule(s: Seq<char>, p: int) -> Step<InputMapping> {
    match spec_parse_pattern(s, p) {
        Step::Fail { kind, pos } => Step::Fail { kind, pos },
        Step::Done { val: input, next: q } => {
            let q2 = spec_skip_ws(s, q);
            if q2 + 1 < s.len() && s[q2] as u32 == 61 && s[q2 + 1] as u32 == 62 {
                match spec_parse_transition(s, q2 + 2) {
                    Step::Fail { kind, pos } => Step::Fail { kind, pos },
                    Step::Done { val: t, next: q3 } => {
                        let q4 = spec_skip_ws(s, q3);
                        if q4 < s.len() && s[q4] as u32 == 44 {
                            Step::Done {
                                val: InputMapping { input, transition: t },
                                next: q4 + 1,
                            }
                        } else {
                            Step::Done { val: InputMapping { input, transition: t }, next: q4 }
                        }
                    },
                }
            } else {
                Step::Fail { kind: ErrorKind::SyntaxError, pos: q2 }
            }
        },
    }
}

/// Reads one rule.
pub fn parse_rule(s: &str, p: usize) -> (r: Result<(InputMapping, usize), CompileError>)
    requires
        p <= s@.len(),
    ensures
        match r {
            Ok((m, q)) => spec_parse_rule(s@, p as int) == (Step::Done {
                val: m,
                next: q as int,
            }) && p < q <= s@.len(),
            Err(e) => spec_parse_rule(s@, p as int) == (Step::<InputMapping>::Fail {
                kind: e.kind,
                pos: e.pos as int,
            }),
        },
{
    let n = s.unicode_len();
    let (input, q) = match parse_input_pattern(s, p) {
        Ok(v) => v,
        Err(e) => {
            return Err(e);
        },
    };
    let q2 = skip_ws(s, q);
    if !(n - q2 > 1 && s.get_char(q2) as u32 == 61 && s.get_char(q2 + 1) as u32 == 62) {
        return Err(CompileError { kind: ErrorKind::SyntaxError, pos: q2 });
    }
    let (t, q3) = match parse_transition(s, q2 + 2) {
        Ok(v) => v,
        Err(e) => {
            return Err(e);
        },
    };
    let q4 = skip_ws(s, q3);
    if q4 < n && s.get_char(q4) as u32 == 44 {
        Ok((InputMapping { input, transition: t }, q4 + 1))
    } else {
        Ok((InputMapping { input, transition: t }, q4))
    }
}

/// Reads rules onto `acc` until the closing brace of the block. Reaching the
/// end of input first is a syntax error: blocks must be closed.
pub open spec fn spec_parse_rules(s: Seq<char>, p: int, acc: Seq<InputMapping>) -> Step<
    Seq<InputMapping>,
>
    decreases s.len() - p,
{
    let q = spec_skip_ws(s, p);
    if q >= s.len() {
        Step::Fail { kind: ErrorKind::SyntaxError, pos: q }
    } else if s[q] as u32 == 125 {
        Step::Done { val: acc, next: q + 1 }
    } else {
        match spec_parse_rule(s, q) {
            Step::Fail { kind, pos } => Step::Fail { kind, pos },
            Step::Done { val: m, next: r } => {
                if p < r <= s.len() {
                    spec_parse_rules(s, r, acc.push(m))
                } else {
                    Step::Fail { kind: ErrorKind::SyntaxError, pos: r }
                }
            },
        }
    }
}

/// Reads a brace-delimited block of rules at `p` (leading whitespace
/// allowed): `{`, zero or more rules, `}`.
pub open spec fn spec_parse_mappings(s: Seq<char>, p: int) -> Step<Seq<InputMapping>> {
    let q = spec_skip_ws(s, p);
    if q < s.len() && s[q] as u32 == 123 {
        spec_parse_rules(s, q + 1, Seq::empty())
    } else {
        Step::Fail { kind: ErrorKind::SyntaxError, pos: q }
    }
}

/// Reads a brace-delimited block of rules into the ordered list of input
/// mappings of one state block.
pub fn parse_table_input_mappings(s: &str, p: usize) -> (r: Result<
    (Vec<InputMapping>, usize),
    CompileError,
>)
    requires
        p <= s@.len(),
    ensures
        match r {
            Ok((ms, q)) => spec_parse_mappings(s@, p as int) == (Step::Done {
                val: ms@,
                next: q as int,
            }) && p < q <= s@.len(),
            Err(e) => spec_parse_mappings(s@, p as int) == (Step::<Seq<InputMapping>>::Fail {
                kind: e.kind,
                pos: e.pos as int,
            }),
        },
{
    let n = s.unicode_len();
    let q0 = skip_ws(s, p);
    if !(q0 < n && s.get_char(q0) as u32 == 123) {
        return Err(CompileError { kind: ErrorKind::SyntaxError, pos: q0 });
    }
    let mut ms: Vec<InputMapping> = Vec::new();
    let mut i: usize = q0 + 1;
    loop
        invariant
            p <= q0,
            (q0 as int) < i as int,
            i <= n,
            n == s@.len(),
            spec_parse_mappings(s@, p as int) == spec_parse_rules(s@, i as int, ms@),
        decreases n - i,
    {
        let q = skip_ws(s, i);
        if q >= n {
            return Err(CompileError { kind: ErrorKind::SyntaxError, pos: q });
        }
        if s.get_char(q) as u32 == 125 {
            return Ok((ms, q + 1));
        }
        match parse_rule(s, q) {
            Err(e) => {
                return Err(e);
            },
            Ok((m, r2)) => {
                ms.push(m);
                i = r2;
            },
        }
    }
}

/// Reads one state block at `p` (no leading whitespace): a state name,
/// `=>`, and a brace-delimited block of rules. A name that is not a state
/// name is an unknown symbol; anything but a name is a syntax error.
pub open spec fn spec_parse_table_definition(s: Seq<char>, p: int) -> Step<DefView> {
    if p < s.len() && is_ident_start_char(s[p]) {
        let e = spec_ident_end(s, p);
        match spec_state_from_str(s.subrange(p, e)) {
            None => Step::Fail { kind: ErrorKind::UnknownSymbol, pos: p },
            Some(st) => {
                let q = spec_skip_ws(s, e);
                if q + 1 < s.len() && s[q] as u32 == 61 && s[q + 1] as u32 == 62 {
                    match spec_parse_mappings(s, q + 2) {
                        Step::Fail { kind, pos } => Step::Fail { kind, pos },
                        Step::Done { val: ms, next } => Step::Done {
                            val: DefView { state: st, mappings: ms },
                            next,
                        },
                    }
                } else {
                    Step::Fail { kind: ErrorKind::SyntaxError, pos: q }
                }
            },
        }
    } else {
        Step::Fail { kind: ErrorKind::SyntaxError, pos: p }
    }
}

/// Reads one state block.
pub fn parse_table_definition(s: &str, p: usize) -> (r: Result<
    (TableDefinition, usize),
    CompileError,
>)
    requires
        p <= s@.len(),
    ensures
        match r {
            Ok((d, q)) => spec_parse_table_definition(s@, p as int) == (Step::Done {
                val: d@,
                next: q as int,
            }) && p < q <= s@.len(),
            Err(e) => spec_parse_table_definition(s@, p as int) == (Step::<DefView>::Fail {
                kind: e.kind,
                pos: e.pos as int,
            }),
        },
{
    let n = s.unicode_len();
    if !(p < n && is_ident_start(s.get_char(p))) {
        return Err(CompileError { kind: ErrorKind::SyntaxError, pos: p });
    }
    let e = ident_end(s, p);
    let name = s.substring_char(p, e);
    let st = match state_from_str(name) {
        Ok(st) => st,
        Err(_) => {
            return Err(CompileError { kind: ErrorKind::UnknownSymbol, pos: p });
        },
    };
    let q = skip_ws(s, e);
    if !(n - q > 1 && s.get_char(q) as u32 == 61 && s.get_char(q + 1) as u32 == 62) {
        return Err(CompileError { kind: ErrorKind::SyntaxError, pos: q });
    }
    match parse_table_input_mappings(s, q + 2) {
        Err(e2) => Err(e2),
        Ok((ms, r2)) => Ok((TableDefinition { state: st, mappings: ms }, r2)),
    }
}

/// Reads state blocks onto `acc` until the end of input, each optionally
/// followed by a comma.
pub open spec fn spec_parse_program(s: Seq<char>, p: int, acc: Seq<DefView>) -> Step<Seq<DefView>>
    decreases s.len() - p,
{
    let q = spec_skip_ws(s, p);
    if q >= s.len() {
        Step::Done { val: acc, next: q }
    } else {
        match spec_parse_table_definition(s, q) {
            Step::Fail { kind, pos } => Step::Fail { kind, pos },
            Step::Done { val: d, next: r } => {
                let r2 = spec_skip_ws(s, r);
                let r3: int = if r2 < s.len() && s[r2] as u32 == 44 {
                    r2 + 1
                } else {
                    r2
                };
                if p < r3 <= s.len() {
                    spec_parse_program(s, r3, acc.push(d))
                } else {
                    Step::Fail { kind: ErrorKind::SyntaxError, pos: r3 }
                }
            },
        }
    }
}

/// Reads the whole program: the ordered list of state blocks.
pub fn parse_table_definition_list(s: &str) -> (r: Result<Vec<TableDefinition>, CompileError>)
    ensures
        match r {
            Ok(defs) => spec_parse_program(s@, 0, Seq::empty()) matches Step::Done { val, next }
                && val == crate::table::views_of(defs@),
            Err(e) => spec_parse_program(s@, 0, Seq::empty()) == (Step::<Seq<DefView>>::Fail {
                kind: e.kind,
                pos: e.pos as int,
            }),
        },
{
    let n = s.unicode_len();
    let mut defs: Vec<TableDefinition> = Vec::new();
    let mut i: usize = 0;
    proof {
        assert(crate::table::views_of(defs@) =~= Seq::<DefView>::empty());
    }
    loop
        invariant
            i <= n,
            n == s@.len(),
            spec_parse_program(s@, 0, Seq::empty()) == spec_parse_program(
                s@,
                i as int,
                crate::table::views_of(defs@),
            ),
        decreases n - i,
    {
        let q = skip_ws(s, i);
        if q >= n {
            return Ok(defs);
        }
        match parse_table_definition(s, q) {
            Err(e) => {
                return Err(e);
            },
            Ok((d, r)) => {
                let r2 = skip_ws(s, r);
                let r3: usize = if r2 < n && s.get_char(r2) as u32 == 44 {
                    r2 + 1
                } else {
                    r2
                };
                proof {
                    assert(crate::table::views_of(defs@).push(d@) =~= crate::table::views_of(
                        defs@.push(d),
                    ));
                }
                defs.push(d);
                i = r3;
            },
        }
    }
}

} // verus!
