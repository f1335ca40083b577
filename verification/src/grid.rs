//! Flattening a grid of cells into one row-major sequence.

use vstd::prelude::*;
use vstd::multiset::{lemma_multiset_empty_len, Multiset};
use vstd::seq_lib::lemma_multiset_commutative;

verus! {

/// The rows of a grid as sequences of cells.
pub open spec fn rows<T>(grid: Seq<Vec<T>>) -> Seq<Seq<T>> {
    Seq::new(grid.len(), |r: int| grid[r]@)
}

/// The cells of `rows`, row after row, each row in column order.
pub open spec fn row_major<T>(rows: Seq<Seq<T>>) -> Seq<T>
    decreases rows.len(),
{
    if rows.len() == 0 {
        Seq::empty()
    } else {
        row_major(rows.drop_last()) + rows.last()
    }
}

/// The number of cells in `rows`: the sum of the rows' lengths.
pub open spec fn cell_count<T>(rows: Seq<Seq<T>>) -> nat
    decreases rows.len(),
{
    if rows.len() == 0 {
        0
    } else {
        cell_count(rows.drop_last()) + rows.last().len()
    }
}

/// The cells of `rows` as a multiset: the sum of the rows' multisets.
pub open spec fn cell_multiset<T>(rows: Seq<Seq<T>>) -> Multiset<T>
    decreases rows.len(),
{
    if rows.len() == 0 {
        Multiset::empty()
    } else {
        cell_multiset(rows.drop_last()).add(rows.last().to_multiset())
    }
}

/// Flattening keeps every cell: the flat sequence is as long as the rows'
/// lengths summed.
pub proof fn lemma_row_major_len<T>(rows: Seq<Seq<T>>)
    ensures
        row_major(rows).len() == cell_count(rows),
    decreases rows.len(),
{
    if rows.len() > 0 {
        lemma_row_major_len(rows.drop_last());
    }
}

/// Flattening neither adds, drops nor changes a cell: the flat sequence holds
/// exactly the cells of the rows, each as often as the rows hold it.
pub proof fn lemma_row_major_multiset<T>(rows: Seq<Seq<T>>)
    ensures
        row_major(rows).to_multiset() =~= cell_multiset(rows),
    decreases rows.len(),
{
    if rows.len() == 0 {
        assert(row_major(rows).to_multiset().len() == 0) by {
            row_major(rows).to_multiset_ensures();
        }
        lemma_multiset_empty_len(row_major(rows).to_multiset());
    } else {
        lemma_row_major_multiset(rows.drop_last());
        lemma_multiset_commutative(row_major(rows.drop_last()), rows.last());
    }
}

/// Flattening is row-major: the cell in row `r` and column `c` stands after
/// all cells of the rows before `r`, at offset `c`.
pub proof fn lemma_row_major_index<T>(rows: Seq<Seq<T>>, r: int, c: int)
    requires
        0 <= r < rows.len(),
        0 <= c < rows[r].len(),
    ensures
        cell_count(rows.take(r)) + c < row_major(rows).len(),
        row_major(rows)[cell_count(rows.take(r)) + c] == rows[r][c],
    decreases rows.len(),
{
    let front = rows.drop_last();
    lemma_row_major_len(front);
    if r == rows.len() - 1 {
        assert(rows.take(r) =~= front);
    } else {
        lemma_row_major_index(front, r, c);
        assert(front.take(r) =~= rows.take(r));
    }
}

/// Concatenates the rows of `grid` in order, keeping each row's column order.
pub fn flatten<T>(grid: Vec<Vec<T>>) -> (cells: Vec<T>)
    ensures
        cells@ == row_major(rows(grid@)),
        cells@.len() == cell_count(rows(grid@)),
        cells@.to_multiset() == cell_multiset(rows(grid@)),
{
    let ghost all = rows(grid@);
    let mut grid = grid;
    let mut cells: Vec<T> = Vec::new();
    let mut r: usize = 0;
    while r < grid.len()
        invariant
            r <= grid.len(),
            grid@.len() == all.len(),
            forall|k: int| r <= k < grid@.len() ==> grid@[k]@ == all[k],
            cells@ == row_major(all.take(r as int)),
        decreases grid.len() - r,
    {
        proof {
            assert(all.take(r + 1).drop_last() =~= all.take(r as int));
            assert(all.take(r + 1).last() == all[r as int]);
        }
        cells.append(&mut grid[r]);
        r += 1;
    }
    proof {
        assert(all.take(r as int) =~= all);
        lemma_row_major_len(all);
        lemma_row_major_multiset(all);
    }
    cells
}

} // verus!
