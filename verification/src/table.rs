//! The table builder: expands each rule's input pattern into concrete cells
//! of the 16-row by 256-column transition table, later rules overwriting
//! earlier ones for any byte they both cover, and every cell never addressed
//! by a rule keeping the default packed value 0.
use vstd::prelude::*;

use crate::definitions::{State, state_code};
use crate::transition::{Transition, decode_action, decode_state, spec_pack};

verus! {

/// The input bytes one rule applies to: a single byte, or an inclusive range.
#[derive(Clone, Copy, Debug, PartialEq, Eq, Structural)]
pub enum InputDefinition {
    Specific(u8),
    Range { start: u8, end: u8 },
}

/// One rule: the bytes it covers and the transition they map to.
#[derive(Clone, Copy, Debug, PartialEq, Eq, Structural)]
pub struct InputMapping {
    pub input: InputDefinition,
    pub transition: Transition,
}

/// One parsed state block: a source state and its rules in source order.
#[derive(Debug)]
pub struct TableDefinition {
    pub state: State,
    pub mappings: Vec<InputMapping>,
}

/// The mathematical value of a state block: its state and the sequence of
/// its rules.
pub struct DefView {
    pub state: State,
    pub mappings: Seq<InputMapping>,
}

impl View for TableDefinition {
    type V = DefView;

    open spec fn view(&self) -> DefView {
        DefView { state: self.state, mappings: self.mappings@ }
    }
}

/// The views of a sequence of state blocks.
pub open spec fn views_of(defs: Seq<TableDefinition>) -> Seq<DefView> {
    defs.map_values(|d: TableDefinition| d@)
}

/// Whether an input pattern covers a byte. A range covers every byte from
/// its start bound through its end bound, both ends included.
pub open spec fn covers(d: InputDefinition, b: int) -> bool {
    match d {
        InputDefinition::Specific(x) => b == x,
        InputDefinition::Range { start, end } => start <= b && b <= end,
    }
}

/// A range pattern covers exactly the bytes from its start through its end,
/// both endpoints included.
pub proof fn lemma_range_inclusive(start: u8, end: u8, b: int)
    ensures
        covers(InputDefinition::Range { start, end }, b) <==> start <= b && b <= end,
{
}

/// The cell value for byte `b` after applying the rules `ms` in order to a
/// cell that held `init`: the last rule covering `b` wins.
pub open spec fn apply_mappings(init: u8, ms: Seq<InputMapping>, b: int) -> u8
    decreases ms.len(),
{
    if ms.len() == 0 {
        init
    } else if covers(ms.last().input, b) {
        spec_pack(ms.last().transition)
    } else {
        apply_mappings(init, ms.drop_last(), b)
    }
}

/// The value of cell `[row][b]` after processing the state blocks `defs` in
/// declaration order, starting from the all-zero table. Blocks for the same
/// state accumulate: their rules apply in declaration order.
pub open spec fn cell_after(defs: Seq<DefView>, row: int, b: int) -> u8
    decreases defs.len(),
{
    if defs.len() == 0 {
        0
    } else {
        let prev = cell_after(defs.drop_last(), row, b);
        if state_code(defs.last().state) == row {
            apply_mappings(prev, defs.last().mappings, b)
        } else {
            prev
        }
    }
}

/// The transition of the last rule in `ms` that covers byte `b`, if any.
pub open spec fn last_match(ms: Seq<InputMapping>, b: int) -> Option<Transition>
    decreases ms.len(),
{
    if ms.len() == 0 {
        None
    } else if covers(ms.last().input, b) {
        Some(ms.last().transition)
    } else {
        last_match(ms.drop_last(), b)
    }
}

/// Last write wins: applying a rule list to a cell leaves the packed byte of
/// the last rule that covers the byte, and leaves the cell unchanged when no
/// rule covers it.
pub proof fn lemma_last_write_wins(init: u8, ms: Seq<InputMapping>, b: int)
    ensures
        apply_mappings(init, ms, b) == match last_match(ms, b) {
            Some(t) => spec_pack(t),
            None => init,
        },
    decreases ms.len(),
{
    if ms.len() == 0 {
    } else if covers(ms.last().input, b) {
    } else {
        lemma_last_write_wins(init, ms.drop_last(), b);
    }
}

/// Whether any rule of any block for `row` covers byte `b`.
pub open spec fn addressed(defs: Seq<DefView>, row: int, b: int) -> bool {
    exists|i: int, j: int|
        0 <= i < defs.len() && 0 <= j < defs[i].mappings.len()
            && state_code(#[trigger] defs[i].state) == row
            && covers(#[trigger] defs[i].mappings[j].input, b)
}

proof fn lemma_apply_untouched(init: u8, ms: Seq<InputMapping>, b: int)
    requires
        forall|j: int| 0 <= j < ms.len() ==> !covers(#[trigger] ms[j].input, b),
    ensures
        apply_mappings(init, ms, b) == init,
    decreases ms.len(),
{
    if ms.len() == 0 {
    } else {
        assert(!covers(ms[ms.len() - 1].input, b));
        lemma_apply_untouched(init, ms.drop_last(), b);
    }
}

/// Default fill: a cell never addressed by any rule holds 0, which decodes
/// to the default state's code and the no-op action's code, both 0.
pub proof fn lemma_default_fill(defs: Seq<DefView>, row: int, b: int)
    requires
        !addressed(defs, row, b),
    ensures
        cell_after(defs, row, b) == 0,
        decode_state(cell_after(defs, row, b)) == 0,
        decode_action(cell_after(defs, row, b)) == 0,
    decreases defs.len(),
{
    assert(0u8 & 0x0f == 0) by (bit_vector);
    assert((0u8 >> 4) & 0x0f == 0) by (bit_vector);
    if defs.len() == 0 {
    } else {
        let prefix = defs.drop_last();
        assert(!addressed(prefix, row, b)) by {
            if addressed(prefix, row, b) {
                let (i, j) = choose|i: int, j: int|
                    0 <= i < prefix.len() && 0 <= j < prefix[i].mappings.len()
                        && state_code(#[trigger] prefix[i].state) == row
                        && covers(#[trigger] prefix[i].mappings[j].input, b);
                assert(prefix[i] == defs[i]);
                assert(addressed(defs, row, b));
            }
        }
        lemma_default_fill(prefix, row, b);
        if state_code(defs.last().state) == row {
            let ms = defs.last().mappings;
            assert forall|j: int| 0 <= j < ms.len() implies !covers(#[trigger] ms[j].input, b) by {
                if covers(ms[j].input, b) {
                    assert(defs[defs.len() - 1].mappings == ms);
                    assert(addressed(defs, row, b));
                }
            }
            lemma_apply_untouched(0, ms, b);
        }
    }
}

/// The flat row-major index of cell `[row][b]`.
pub open spec fn flat_idx(row: int, b: int) -> int {
    row * 256 + b
}

proof fn lemma_flat_idx_bounds(row: int, b: int)
    by (nonlinear_arith)
    requires
        0 <= row < 16,
        0 <= b < 256,
    ensures
        0 <= flat_idx(row, b) < 4096,
{
}

proof fn lemma_flat_idx_ne(r1: int, b1: int, r2: int, b2: int)
    by (nonlinear_arith)
    requires
        0 <= r1 < 16,
        0 <= b1 < 256,
        0 <= r2 < 16,
        0 <= b2 < 256,
        r1 != r2 || b1 != b2,
    ensures
        flat_idx(r1, b1) != flat_idx(r2, b2),
{
}

/// Builds the complete transition table from the parsed state blocks:
/// 16 rows of 256 cells, row index the state code, column index the input
/// byte, every cell the packed byte of the last rule that covers it and 0
/// where no rule ever does.
pub fn build_state_tables(defs: &Vec<TableDefinition>) -> (table: Vec<Vec<u8>>)
    ensures
        table@.len() == 16,
        forall|r: int| 0 <= r < 16 ==> (#[trigger] table@[r])@.len() == 256,
        forall|r: int, c: int|
            0 <= r < 16 && 0 <= c < 256 ==> #[trigger] table@[r]@[c] == cell_after(
                views_of(defs@),
                r,
                c,
            ),
{
    let ghost views = views_of(defs@);
    let mut flat: Vec<u8> = Vec::new();
    let mut k: usize = 0;
    while k < 4096
        invariant
            k <= 4096,
            flat@.len() == k,
            forall|i: int| 0 <= i < k ==> flat@[i] == 0,
        decreases 4096 - k,
    {
        flat.push(0);
        k = k + 1;
    }
    let mut di: usize = 0;
    while di < defs.len()
        invariant
            di <= defs@.len(),
            views == views_of(defs@),
            flat@.len() == 4096,
            forall|r: int, c: int|
                0 <= r < 16 && 0 <= c < 256 ==> flat@[#[trigger] flat_idx(r, c)] == cell_after(
                    views.take(di as int),
                    r,
                    c,
                ),
        decreases defs@.len() - di,
    {
        let row: u8 = defs[di].state.code();
        let ghost row_i = row as int;
        let ghost pre = flat@;
        let ghost ms = defs@[di as int].mappings@;
        let mut mi: usize = 0;
        while mi < defs[di].mappings.len()
            invariant
                di < defs@.len(),
                mi <= ms.len(),
                ms == defs@[di as int].mappings@,
                row == state_code(defs@[di as int].state),
                row < 16,
                row_i == row as int,
                pre.len() == 4096,
                flat@.len() == 4096,
                forall|c: int|
                    0 <= c < 256 ==> flat@[#[trigger] flat_idx(row_i, c)] == apply_mappings(
                        pre[flat_idx(row_i, c)],
                        ms.take(mi as int),
                        c,
                    ),
                forall|r: int, c: int|
                    0 <= r < 16 && 0 <= c < 256 && r != row_i ==> flat@[#[trigger] flat_idx(r, c)]
                        == pre[flat_idx(r, c)],
            decreases ms.len() - mi,
        {
            let m = defs[di].mappings[mi];
            let trans: u8 = m.transition.pack_u8();
            let ghost mid = flat@;
            proof {
                assert(ms.take(mi as int + 1).drop_last() =~= ms.take(mi as int));
                assert(ms.take(mi as int + 1).last() == ms[mi as int]);
            }
            match m.input {
                InputDefinition::Specific(x) => {
                    proof {
                        lemma_flat_idx_bounds(row_i, x as int);
                    }
                    flat.set((row as usize) * 256 + (x as usize), trans);
                    proof {
                        assert forall|c: int| 0 <= c < 256 implies flat@[#[trigger] flat_idx(
                            row_i,
                            c,
                        )] == apply_mappings(pre[flat_idx(row_i, c)], ms.take(mi as int + 1), c) by {
                            lemma_flat_idx_bounds(row_i, c);
                            if c == x as int {
                            } else {
                                lemma_flat_idx_ne(row_i, c, row_i, x as int);
                                assert(flat@[flat_idx(row_i, c)] == mid[flat_idx(row_i, c)]);
                            }
                        }
                        assert forall|r: int, c: int|
                            0 <= r < 16 && 0 <= c < 256 && r != row_i implies flat@[#[trigger] flat_idx(
                            r,
                            c,
                        )] == pre[flat_idx(r, c)] by {
                            lemma_flat_idx_bounds(r, c);
                            lemma_flat_idx_ne(r, c, row_i, x as int);
                        }
                    }
                },
                InputDefinition::Range { start, end } => {
                    let e: usize = end as usize;
                    let mut b: usize = start as usize;
                    while b <= e
                        invariant
                            start as int <= b as int <= 256,
                            b as int == start as int || b as int <= e + 1,
                            e == end as int,
                            e < 256,
                            row < 16,
                            row_i == row as int,
                            flat@.len() == 4096,
                            mid.len() == 4096,
                            forall|c: int|
                                start as int <= c < b as int ==> flat@[#[trigger] flat_idx(
                                    row_i,
                                    c,
                                )] == trans,
                            forall|r: int, c: int|
                                0 <= r < 16 && 0 <= c < 256 && !(r == row_i && start as int <= c
                                    < b as int) ==> flat@[#[trigger] flat_idx(r, c)] == mid[flat_idx(
                                    r,
                                    c,
                                )],
                        decreases e + 1 - b,
                    {
                        proof {
                            lemma_flat_idx_bounds(row_i, b as int);
                        }
                        flat.set((row as usize) * 256 + b, trans);
                        proof {
                            assert forall|r: int, c: int|
                                0 <= r < 16 && 0 <= c < 256 && !(r == row_i && start as int <= c
                                    < b as int + 1) implies flat@[#[trigger] flat_idx(r, c)]
                                == mid[flat_idx(r, c)] by {
                                lemma_flat_idx_bounds(r, c);
                                if r != row_i || c != b as int {
                                    lemma_flat_idx_ne(r, c, row_i, b as int);
                                }
                            }
                        }
                        b = b + 1;
                    }
                    proof {
                        assert forall|c: int| 0 <= c < 256 implies flat@[#[trigger] flat_idx(
                            row_i,
                            c,
                        )] == apply_mappings(pre[flat_idx(row_i, c)], ms.take(mi as int + 1), c) by {
                            lemma_flat_idx_bounds(row_i, c);
                            if covers(ms[mi as int].input, c) {
                                assert(flat@[flat_idx(row_i, c)] == trans);
                            } else {
                                assert(flat@[flat_idx(row_i, c)] == mid[flat_idx(row_i, c)]);
                            }
                        }
                        assert forall|r: int, c: int|
                            0 <= r < 16 && 0 <= c < 256 && r != row_i implies flat@[#[trigger] flat_idx(
                            r,
                            c,
                        )] == pre[flat_idx(r, c)] by {
                            lemma_flat_idx_bounds(r, c);
                            assert(flat@[flat_idx(r, c)] == mid[flat_idx(r, c)]);
                        }
                    }
                },
            }
            mi = mi + 1;
        }
        proof {
            assert(ms.take(ms.len() as int) =~= ms);
            assert(views.take(di as int + 1).drop_last() =~= views.take(di as int));
            assert(views.take(di as int + 1).last() == views[di as int]);
            assert(views[di as int] == defs@[di as int]@);
            assert forall|r: int, c: int| 0 <= r < 16 && 0 <= c < 256 implies flat@[#[trigger] flat_idx(
                r,
                c,
            )] == cell_after(views.take(di as int + 1), r, c) by {
                lemma_flat_idx_bounds(r, c);
            }
        }
        di = di + 1;
    }
    proof {
        assert(views.take(defs@.len() as int) =~= views);
    }
    let mut table: Vec<Vec<u8>> = Vec::new();
    let mut r: usize = 0;
    while r < 16
        invariant
            r <= 16,
            table@.len() == r,
            flat@.len() == 4096,
            forall|rr: int, c: int|
                0 <= rr < 16 && 0 <= c < 256 ==> flat@[#[trigger] flat_idx(rr, c)] == cell_after(
                    views,
                    rr,
                    c,
                ),
            views == views_of(defs@),
            forall|rr: int| 0 <= rr < r ==> (#[trigger] table@[rr])@.len() == 256,
            forall|rr: int, c: int|
                0 <= rr < r && 0 <= c < 256 ==> #[trigger] table@[rr]@[c] == cell_after(
                    views,
                    rr,
                    c,
                ),
        decreases 16 - r,
    {
        let mut rowv: Vec<u8> = Vec::new();
        let mut c: usize = 0;
        while c < 256
            invariant
                c <= 256,
                r < 16,
                rowv@.len() == c,
                flat@.len() == 4096,
                forall|rr: int, cc: int|
                    0 <= rr < 16 && 0 <= cc < 256 ==> flat@[#[trigger] flat_idx(rr, cc)]
                        == cell_after(views, rr, cc),
                forall|j: int| 0 <= j < c ==> #[trigger] rowv@[j] == cell_after(views, r as int, j),
            decreases 256 - c,
        {
            proof {
                lemma_flat_idx_bounds(r as int, c as int);
            }
            let v: u8 = flat[r * 256 + c];
            rowv.push(v);
            c = c + 1;
        }
        table.push(rowv);
        r = r + 1;
    }
    table
}

} // verus!
