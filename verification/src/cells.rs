//! The cell block: a rectangular grid of string cells fetched from, or
//! written to, one configured range of the backing store.

use vstd::prelude::*;

verus! {

/// One range's worth of cells. `values` is `None` when a fetch returned no
/// values for the range; on the write path it always holds the rows to write.
/// The rows are laid out row-major, matching the store's `ROWS` dimension.
#[derive(Debug, PartialEq, Eq)]
pub struct CellBlock {
    pub range: String,
    pub values: Option<Vec<Vec<String>>>,
}

/// The mathematical content of a grid of cells: a sequence of rows, each a
/// sequence of character sequences.
pub open spec fn rows_dv(v: Vec<Vec<String>>) -> Seq<Seq<Seq<char>>> {
    v.deep_view()
}

/// The rows a block holds, if any.
pub open spec fn blk_rows(b: CellBlock) -> Option<Seq<Seq<Seq<char>>>> {
    match b.values {
        Some(v) => Some(rows_dv(v)),
        None => None,
    }
}

/// Cell `j` of a row, or the given default where the row is too short.
pub open spec fn cell_or(row: Seq<Seq<char>>, j: int, d: Seq<char>) -> Seq<char> {
    if 0 <= j < row.len() {
        row[j]
    } else {
        d
    }
}

/// `rows` padded with copies of the sentinel row `pad` up to `n` rows.
/// Encoding a list field always emits exactly its fixed row count, so
/// previously written trailing entries are explicitly cleared.
pub open spec fn padded(rows: Seq<Seq<Seq<char>>>, n: int, pad: Seq<Seq<char>>) -> Seq<
    Seq<Seq<char>>,
> {
    rows + Seq::new((n - rows.len()) as nat, |k: int| pad)
}

} // verus!
