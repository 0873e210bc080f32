//! The emitter: serializes the completed 16-row by 256-column table into a
//! flat binary blob in row-major order, cell `[state][byte]` at offset
//! `state * 256 + byte`, without reordering or reinterpreting any value.
use vstd::prelude::*;

use crate::table::flat_idx;

verus! {

/// Serializes the table into a flat row-major blob of exactly 4096 bytes:
/// the cell for state code `s` and input byte `b` is at offset `s * 256 + b`.
pub fn emit_table(table: &Vec<Vec<u8>>) -> (blob: Vec<u8>)
    requires
        table@.len() == 16,
        forall|r: int| 0 <= r < 16 ==> (#[trigger] table@[r])@.len() == 256,
    ensures
        blob@.len() == 4096,
        forall|r: int, c: int|
            0 <= r < 16 && 0 <= c < 256 ==> blob@[#[trigger] flat_idx(r, c)] == table@[r]@[c],
{
    let mut blob: Vec<u8> = Vec::new();
    let mut r: usize = 0;
    while r < 16
        invariant
            r <= 16,
            table@.len() == 16,
            forall|rr: int| 0 <= rr < 16 ==> (#[trigger] table@[rr])@.len() == 256,
            blob@.len() == r * 256,
            forall|rr: int, c: int|
                0 <= rr < r && 0 <= c < 256 ==> blob@[#[trigger] flat_idx(rr, c)] == table@[rr]@[c],
        decreases 16 - r,
    {
        let mut c: usize = 0;
        while c < 256
            invariant
                r < 16,
                c <= 256,
                table@.len() == 16,
                forall|rr: int| 0 <= rr < 16 ==> (#[trigger] table@[rr])@.len() == 256,
                blob@.len() == r * 256 + c,
                forall|rr: int, cc: int|
                    0 <= rr < r && 0 <= cc < 256 ==> blob@[#[trigger] flat_idx(rr, cc)]
                        == table@[rr]@[cc],
                forall|cc: int|
                    0 <= cc < c ==> blob@[#[trigger] flat_idx(r as int, cc)] == table@[r as int]@[cc],
        decreases 256 - c,
        {
            let v: u8 = table[r][c];
            blob.push(v);
            c = c + 1;
        }
        r = r + 1;
    }
    blob
}

} // verus!
