//! Tests of the table builder on hand-built state blocks.
use vt_tablegen::definitions::{Action, State};
use vt_tablegen::table::{InputDefinition, InputMapping, TableDefinition, build_state_tables};
use vt_tablegen::transition::Transition;

#[test]
fn build_state_tables_with_no_blocks_leaves_every_cell_default() {
    let table = build_state_tables(&Vec::new());
    assert_eq!(table.len(), 16);
    for row in &table {
        assert_eq!(row.len(), 256);
        for &cell in row {
            assert_eq!(cell & 0x0f, 0);
            assert_eq!((cell >> 4) & 0x0f, 0);
        }
    }
}

#[test]
fn build_state_tables_expands_ranges_inclusively() {
    let defs = vec![TableDefinition {
        state: State::CsiParam,
        mappings: vec![InputMapping {
            input: InputDefinition::Range { start: 0x40, end: 0x7e },
            transition: Transition::StateAction(State::Ground, Action::CsiDispatch),
        }],
    }];
    let table = build_state_tables(&defs);
    let expected = (3u8 << 4) | 12;
    assert_eq!(table[4][0x40], expected);
    assert_eq!(table[4][0x7e], expected);
    assert_eq!(table[4][0x3f], 0);
    assert_eq!(table[4][0x7f], 0);
}

#[test]
fn build_state_tables_applies_rules_in_order() {
    let defs = vec![TableDefinition {
        state: State::Escape,
        mappings: vec![
            InputMapping {
                input: InputDefinition::Range { start: 0x00, end: 0xff },
                transition: Transition::Action(Action::Ignore),
            },
            InputMapping {
                input: InputDefinition::Specific(0x1b),
                transition: Transition::Action(Action::Execute),
            },
        ],
    }];
    let table = build_state_tables(&defs);
    assert_eq!(table[10][0x1b], 5 << 4);
    assert_eq!(table[10][0x00], 7 << 4);
    assert_eq!(table[10][0xff], 7 << 4);
}

#[test]
fn a_single_byte_range_covers_exactly_its_byte() {
    let defs = vec![TableDefinition {
        state: State::Ground,
        mappings: vec![InputMapping {
            input: InputDefinition::Range { start: 0x20, end: 0x20 },
            transition: Transition::Action(Action::Print),
        }],
    }];
    let table = build_state_tables(&defs);
    assert_eq!(table[12][0x1f], 0);
    assert_eq!(table[12][0x20], 12 << 4);
    assert_eq!(table[12][0x21], 0);
}
