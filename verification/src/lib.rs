//! Compiler for the terminal escape-sequence parser's state-transition table.
//!
//! Per-state rule declarations, written in a small textual language, are
//! compiled into a dense 16-row by 256-column table of packed bytes that a
//! runtime parser indexes as `table[current_state_code][input_byte]`, reading
//! the next state from the low nibble and the action from the high nibble.
//! The whole pipeline — resolving names, parsing rules, encoding transitions,
//! building the table — is a deterministic function of the declaration text:
//! the same text always compiles to the byte-identical table, and any fault
//! aborts the compile with a located error before any table is produced.
use vstd::prelude::*;

pub mod definitions;
pub mod emit;
pub mod parse;
pub mod table;
pub mod transition;

use crate::parse::{CompileError, Step, spec_parse_program};
use crate::table::{DefView, cell_after, views_of};

verus! {

/// The rows of the compiled table: 16 rows of 256 cells, cell `[row][b]`
/// holding the last-write-wins value of the state blocks `defs`.
pub open spec fn spec_table_cells(defs: Seq<DefView>) -> Seq<Seq<u8>> {
    Seq::new(16, |r: int| Seq::new(256, |c: int| cell_after(defs, r, c)))
}

/// What compiling a declaration text yields: the full table when the text
/// parses, and the first fault otherwise.
pub open spec fn spec_compile(s: Seq<char>) -> Step<Seq<Seq<u8>>> {
    match spec_parse_program(s, 0, Seq::empty()) {
        Step::Fail { kind, pos } => Step::Fail { kind, pos },
        Step::Done { val: defs, next } => Step::Done { val: spec_table_cells(defs), next },
    }
}

/// Compiles a declaration text into the complete 16-row by 256-column
/// transition table, or aborts with the first fault and its character
/// offset; no partial table is ever returned.
pub fn compile(src: &str) -> (r: Result<Vec<Vec<u8>>, CompileError>)
    ensures
        match r {
            Ok(table) => {
                &&& spec_compile(src@) matches Step::Done { val, next } && val == table@.map_values(
                    |row: Vec<u8>| row@,
                )
                &&& table@.len() == 16
                &&& forall|row: int| 0 <= row < 16 ==> (#[trigger] table@[row])@.len() == 256
            },
            Err(e) => spec_compile(src@) == (Step::<Seq<Seq<u8>>>::Fail {
                kind: e.kind,
                pos: e.pos as int,
            }),
        },
{
    let defs = match crate::parse::parse_table_definition_list(src) {
        Err(e) => {
            return Err(e);
        },
        Ok(defs) => defs,
    };
    let table = crate::table::build_state_tables(&defs);
    proof {
        assert(table@.map_values(|row: Vec<u8>| row@) =~~= spec_table_cells(views_of(defs@)));
    }
    Ok(table)
}

/// Determinism: compiling the same declaration text twice yields the same
/// outcome — byte-identical tables on success, the identical fault on
/// failure. The compile is a mathematical function of the text alone.
pub proof fn lemma_compile_deterministic(s1: Seq<char>, s2: Seq<char>)
    requires
        s1 == s2,
    ensures
        spec_compile(s1) == spec_compile(s2),
{
}

} // verus!
