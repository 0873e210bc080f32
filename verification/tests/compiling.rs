//! Tests of the whole compile pipeline: declaration text in, table out.
use vt_tablegen::compile;
use vt_tablegen::emit::emit_table;
use vt_tablegen::parse::ErrorKind;

const GROUND: usize = 12;
const ESCAPE: usize = 10;

#[test]
fn empty_input_compiles_to_the_all_default_table() {
    let table = compile("").unwrap();
    assert_eq!(table.len(), 16);
    for row in &table {
        assert_eq!(row.len(), 256);
        for &cell in row {
            assert_eq!(cell, 0);
        }
    }
}

#[test]
fn table_dimensions_are_fixed_however_sparse_the_input() {
    let table = compile("State::Utf8 => { 0x00 => Action::Ignore }").unwrap();
    assert_eq!(table.len(), 16);
    for row in &table {
        assert_eq!(row.len(), 256);
    }
}

#[test]
fn specific_rule_writes_exactly_one_cell() {
    let table = compile("State::Ground => { 0x41 => (State::CsiParam, Action::Collect) }")
        .unwrap();
    assert_eq!(table[GROUND][0x41], 0x24);
    for b in 0..256 {
        if b != 0x41 {
            assert_eq!(table[GROUND][b], 0);
        }
    }
    for (s, row) in table.iter().enumerate() {
        if s != GROUND {
            for &cell in row {
                assert_eq!(cell, 0);
            }
        }
    }
}

#[test]
fn range_rule_covers_both_endpoints_and_nothing_else() {
    let table = compile("State::Ground => { 0x30..0x39 => Action::Param }").unwrap();
    let expected = 11u8 << 4;
    let mut written = 0;
    for b in 0..256 {
        if (0x30..=0x39).contains(&b) {
            assert_eq!(table[GROUND][b], expected);
            written += 1;
        } else {
            assert_eq!(table[GROUND][b], 0);
        }
    }
    assert_eq!(written, 10);
}

#[test]
fn later_rule_wins_over_earlier_range() {
    let src = "State::Escape => {
        0x00..0x7f => Action::Execute,
        0x1b => Action::Ignore,
    }";
    let table = compile(src).unwrap();
    assert_eq!(table[ESCAPE][0x1b], 7 << 4);
    assert_eq!(table[ESCAPE][0x1a], 5 << 4);
    assert_eq!(table[ESCAPE][0x1c], 5 << 4);
}

#[test]
fn repeated_blocks_for_one_state_accumulate_in_order() {
    let src = "State::Ground => { 0x20 => Action::Print, 0x21 => Action::Print },
               State::Ground => { 0x20 => Action::Execute }";
    let table = compile(src).unwrap();
    assert_eq!(table[GROUND][0x20], 5 << 4);
    assert_eq!(table[GROUND][0x21], 12 << 4);
}

#[test]
fn state_only_transition_packs_the_state_code() {
    let table = compile("State::Ground => { 0x1b => State::Escape }").unwrap();
    assert_eq!(table[GROUND][0x1b], ESCAPE as u8);
}

#[test]
fn tuple_symbols_may_come_in_either_order() {
    let a = compile("State::Ground => { 0x41 => (State::CsiParam, Action::Collect) }")
        .unwrap();
    let b = compile("State::Ground => { 0x41 => (Action::Collect, State::CsiParam) }")
        .unwrap();
    assert_eq!(a[GROUND][0x41], 0x24);
    assert_eq!(a, b);
}

#[test]
fn the_none_action_packs_to_zero_in_the_high_nibble() {
    let table = compile("State::Escape => { 0x05 => (State::Ground, Action::None) }").unwrap();
    assert_eq!(table[ESCAPE][0x05], GROUND as u8);
}

#[test]
fn decimal_and_hexadecimal_literals_agree() {
    let dec = compile("State::Ground => { 27 => State::Escape }").unwrap();
    let hex = compile("State::Ground => { 0x1b => State::Escape }").unwrap();
    assert_eq!(dec, hex);
    assert_eq!(dec[GROUND][27], ESCAPE as u8);
}

#[test]
fn compiling_twice_yields_byte_identical_tables() {
    let src = "State::Ground => { 0x00..0x17 => Action::Execute, 0x20..0x7f => Action::Print },
               State::Escape => { 0x5b => State::CsiEntry }";
    let first = compile(src).unwrap();
    let second = compile(src).unwrap();
    assert_eq!(first, second);
    assert_eq!(emit_table(&first), emit_table(&second));
}

#[test]
fn several_states_fill_their_own_rows() {
    let src = "State::Ground => { 0x1b => State::Escape },
               State::Escape => { 0x5b => (State::CsiEntry, Action::Clear) },
               State::CsiEntry => { 0x30..0x39 => (State::CsiParam, Action::Param) }";
    let table = compile(src).unwrap();
    assert_eq!(table[GROUND][0x1b], ESCAPE as u8);
    assert_eq!(table[ESCAPE][0x5b], (1 << 4) | 1);
    assert_eq!(table[1][0x35], (11 << 4) | 4);
    assert_eq!(table[1][0x2f], 0);
}

#[test]
fn whitespace_and_trailing_commas_are_insignificant() {
    let tight = compile("State::Ground=>{0x41=>Action::Print}").unwrap();
    let airy = compile("  State::Ground  =>  {\n\t0x41 => Action::Print ,\n}  ,\n").unwrap();
    assert_eq!(tight, airy);
    assert_eq!(tight[GROUND][0x41], 12 << 4);
}

#[test]
fn emitted_blob_is_row_major() {
    let table = compile("State::Ground => { 0x41 => (State::CsiParam, Action::Collect) }")
        .unwrap();
    let blob = emit_table(&table);
    assert_eq!(blob.len(), 4096);
    assert_eq!(blob[GROUND * 256 + 0x41], 0x24);
    let zeros = blob.iter().filter(|&&b| b == 0).count();
    assert_eq!(zeros, 4095);
}

#[test]
fn the_anywhere_state_is_row_zero() {
    let table = compile("State::Anywhere => { 0x18 => (State::Ground, Action::Execute) }")
        .unwrap();
    assert_eq!(table[0][0x18], (5 << 4) | 12);
}

#[test]
fn unknown_symbol_aborts_the_compile() {
    let err = compile("State::Nowhere => { 0x00 => Action::Print }").unwrap_err();
    assert_eq!(err.kind, ErrorKind::UnknownSymbol);
    let err = compile("State::Ground => { 0x00 => Action::Shout }").unwrap_err();
    assert_eq!(err.kind, ErrorKind::UnknownSymbol);
    let err = compile("State::Ground => { 0x00 => (State::Escape, Action::Shout) }").unwrap_err();
    assert_eq!(err.kind, ErrorKind::UnknownSymbol);
}

#[test]
fn action_name_in_state_position_is_unknown() {
    let err = compile("Action::Print => { 0x00 => Action::Print }").unwrap_err();
    assert_eq!(err.kind, ErrorKind::UnknownSymbol);
}

#[test]
fn backwards_range_is_an_invalid_pattern() {
    let err = compile("State::Ground => { 0x39..0x30 => Action::Param }").unwrap_err();
    assert_eq!(err.kind, ErrorKind::InvalidInputPattern);
}

#[test]
fn oversized_byte_values_are_invalid_patterns() {
    let err = compile("State::Ground => { 300 => Action::Print }").unwrap_err();
    assert_eq!(err.kind, ErrorKind::InvalidInputPattern);
    let err = compile("State::Ground => { 0x100 => Action::Print }").unwrap_err();
    assert_eq!(err.kind, ErrorKind::InvalidInputPattern);
}

#[test]
fn non_numeric_pattern_is_invalid() {
    let err = compile("State::Ground => { Action::Print => 0x30 }").unwrap_err();
    assert_eq!(err.kind, ErrorKind::InvalidInputPattern);
}

#[test]
fn malformed_transition_expressions_are_invalid() {
    let err = compile("State::Ground => { 0x30 => 5 }").unwrap_err();
    assert_eq!(err.kind, ErrorKind::InvalidTransition);
    let err = compile("State::Ground => { 0x30 => (State::Escape) }").unwrap_err();
    assert_eq!(err.kind, ErrorKind::InvalidTransition);
    let err = compile("State::Ground => { 0x30 => (State::Escape, Action::Print }").unwrap_err();
    assert_eq!(err.kind, ErrorKind::InvalidTransition);
}

#[test]
fn two_symbols_of_one_family_are_ambiguous() {
    let err = compile("State::Ground => { 0x30 => (State::Escape, State::Utf8) }").unwrap_err();
    assert_eq!(err.kind, ErrorKind::AmbiguousTransition);
    let err = compile("State::Ground => { 0x30 => (Action::Print, Action::Clear) }").unwrap_err();
    assert_eq!(err.kind, ErrorKind::AmbiguousTransition);
}

#[test]
fn structural_faults_are_syntax_errors() {
    let err = compile("State::Ground { 0x30 => Action::Print }").unwrap_err();
    assert_eq!(err.kind, ErrorKind::SyntaxError);
    let err = compile("State::Ground => { 0x30 => Action::Print").unwrap_err();
    assert_eq!(err.kind, ErrorKind::SyntaxError);
    let err = compile("State::Ground => 0x30 => Action::Print }").unwrap_err();
    assert_eq!(err.kind, ErrorKind::SyntaxError);
    let err = compile("{ 0x30 => Action::Print }").unwrap_err();
    assert_eq!(err.kind, ErrorKind::SyntaxError);
}

#[test]
fn errors_carry_the_offending_offset() {
    let err = compile("State::Ground => { 0x30 => Action::Shout }").unwrap_err();
    assert_eq!(err.pos, 27);
    let err = compile("State::Nowhere => { }").unwrap_err();
    assert_eq!(err.pos, 0);
}
