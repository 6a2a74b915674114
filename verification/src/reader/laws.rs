//! The sequence protocol's laws: exhaustion is permanent, and the row and
//! column indices a walk observes form a contiguous range from 0.

use vstd::prelude::*;

use crate::reader::workbook::cells_step;
use crate::reader::workbook::cells_yield;
use crate::reader::workbook::rows_step;
use crate::reader::workbook::rows_yield;
use crate::reader::workbook::worksheets_step;
use crate::reader::workbook::worksheets_yield;
use crate::reader::workbook::Cells;
use crate::reader::workbook::Rows;
use crate::reader::workbook::Worksheets;

verus! {

/// How many entries a table answers before its first gap: the length of the
/// longest filled prefix.
pub open spec fn leading_present<T>(entries: Seq<Option<T>>) -> nat
    decreases entries.len(),
{
    if entries.len() == 0 {
        0
    } else if entries[0] is None {
        0
    } else {
        1 + leading_present(entries.drop_first())
    }
}

/// What `leading_present` means index by index: every entry before it is
/// filled, and the entry at it, when there is one, is a gap.
pub proof fn lemma_leading_present<T>(entries: Seq<Option<T>>)
    ensures
        leading_present(entries) <= entries.len(),
        forall|i: int| 0 <= i < leading_present(entries) ==> entries[i] is Some,
        leading_present(entries) < entries.len() ==> entries[leading_present(entries) as int]
            is None,
    decreases entries.len(),
{
    if entries.len() != 0 && entries[0] is Some {
        let rest = entries.drop_first();
        lemma_leading_present(rest);
        assert forall|i: int| 0 <= i < leading_present(entries) implies entries[i] is Some by {
            if i > 0 {
                assert(rest[i - 1] == entries[i]);
            }
        }
        if leading_present(entries) < entries.len() {
            assert(rest[leading_present(rest) as int] == entries[leading_present(entries) as int]);
        }
    }
}

/// The worksheet sequence's state after `n` steps.
pub open spec fn worksheets_after<'a>(it: Worksheets<'a>, n: nat) -> Worksheets<'a>
    decreases n,
{
    if n == 0 {
        it
    } else {
        worksheets_step(worksheets_after(it, (n - 1) as nat))
    }
}

/// Idempotent exhaustion: once the worksheet sequence has nothing to yield,
/// any number of further steps leaves it unchanged, still yielding nothing.
pub proof fn lemma_worksheets_exhaustion_idempotent(it: Worksheets, n: nat)
    requires
        worksheets_yield(it) is None,
    ensures
        worksheets_after(it, n) == it,
        worksheets_yield(worksheets_after(it, n)) is None,
    decreases n,
{
    if n > 0 {
        lemma_worksheets_exhaustion_idempotent(it, (n - 1) as nat);
    }
}

/// The row sequence's state after `n` steps.
pub open spec fn rows_after<'a>(it: Rows<'a>, n: nat) -> Rows<'a>
    decreases n,
{
    if n == 0 {
        it
    } else {
        rows_step(rows_after(it, (n - 1) as nat))
    }
}

/// The row indices the first `n` steps of the row sequence yield, in order.
pub open spec fn rows_observed<'a>(it: Rows<'a>, n: nat) -> Seq<nat>
    decreases n,
{
    if n == 0 {
        Seq::empty()
    } else {
        let prev = rows_observed(it, (n - 1) as nat);
        let st = rows_after(it, (n - 1) as nat);
        if rows_yield(st) is Some {
            prev.push(st.current_row as nat)
        } else {
            prev
        }
    }
}

/// The row indices observed from a fresh row sequence form the contiguous
/// range 0..k, strictly increasing by 1 with no repeats, where k is the
/// length of the row table's filled prefix: the first n steps yield exactly
/// the indices 0, 1, ..., min(n, k) - 1, and the cursor never passes k.
pub proof fn lemma_row_indices_contiguous(it: Rows, n: nat)
    requires
        it.current_row == 0,
        it.worksheet.data.rows@.len() <= usize::MAX,
    ensures
        ({
            let k = leading_present(it.worksheet.data.rows@);
            let m = if n <= k {
                n
            } else {
                k
            };
            &&& rows_after(it, n).worksheet == it.worksheet
            &&& rows_after(it, n).current_row == m
            &&& rows_observed(it, n) == Seq::new(m, |i: int| i as nat)
        }),
    decreases n,
{
    let entries = it.worksheet.data.rows@;
    let k = leading_present(entries);
    lemma_leading_present(entries);
    if n == 0 {
        assert(rows_observed(it, 0) =~= Seq::new(0, |i: int| i as nat));
    } else {
        lemma_row_indices_contiguous(it, (n - 1) as nat);
        let st = rows_after(it, (n - 1) as nat);
        let m1 = if n - 1 <= k {
            (n - 1) as nat
        } else {
            k
        };
        if m1 < k {
            assert(entries[m1 as int] is Some);
            assert(rows_observed(it, n) =~= Seq::new((m1 + 1) as nat, |i: int| i as nat));
        } else {
            assert(rows_yield(st) is None);
        }
    }
}

/// The cell sequence's state after `n` steps.
pub open spec fn cells_after<'a>(it: Cells<'a>, n: nat) -> Cells<'a>
    decreases n,
{
    if n == 0 {
        it
    } else {
        cells_step(cells_after(it, (n - 1) as nat))
    }
}

/// The column indices the first `n` steps of the cell sequence yield.
pub open spec fn cells_observed<'a>(it: Cells<'a>, n: nat) -> Seq<nat>
    decreases n,
{
    if n == 0 {
        Seq::empty()
    } else {
        let prev = cells_observed(it, (n - 1) as nat);
        let st = cells_after(it, (n - 1) as nat);
        if cells_yield(st) is Some {
            prev.push(st.current_col as nat)
        } else {
            prev
        }
    }
}

/// The column indices observed from a fresh cell sequence form the
/// contiguous range 0..m, strictly increasing by 1 with no repeats, where m
/// is the length of the cell table's filled prefix; and the sequence never
/// leaves its row, so every yielded cell carries the same row index.
pub proof fn lemma_cell_indices_contiguous(it: Cells, n: nat)
    requires
        it.current_col == 0,
        it.row.data.cells@.len() <= usize::MAX,
    ensures
        ({
            let k = leading_present(it.row.data.cells@);
            let m = if n <= k {
                n
            } else {
                k
            };
            &&& cells_after(it, n).row == it.row
            &&& cells_after(it, n).current_col == m
            &&& cells_observed(it, n) == Seq::new(m, |i: int| i as nat)
        }),
    decreases n,
{
    let entries = it.row.data.cells@;
    let k = leading_present(entries);
    lemma_leading_present(entries);
    if n == 0 {
        assert(cells_observed(it, 0) =~= Seq::new(0, |i: int| i as nat));
    } else {
        lemma_cell_indices_contiguous(it, (n - 1) as nat);
        let st = cells_after(it, (n - 1) as nat);
        let m1 = if n - 1 <= k {
            (n - 1) as nat
        } else {
            k
        };
        if m1 < k {
            assert(entries[m1 as int] is Some);
            assert(cells_observed(it, n) =~= Seq::new((m1 + 1) as nat, |i: int| i as nat));
        } else {
            assert(cells_yield(st) is None);
        }
    }
}

} // verus!
