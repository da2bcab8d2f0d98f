use vstd::prelude::*;

verus! {

/// What a row algorithm can read of one cell: nothing when it is null,
/// else its text and its value as an unsigned integer.
pub type CellModel = Option<(Seq<char>, usize)>;

/// The character for a decimal digit.
pub open spec fn digit_char(d: int) -> char {
    if d == 0 { '0' }
    else if d == 1 { '1' }
    else if d == 2 { '2' }
    else if d == 3 { '3' }
    else if d == 4 { '4' }
    else if d == 5 { '5' }
    else if d == 6 { '6' }
    else if d == 7 { '7' }
    else if d == 8 { '8' }
    else { '9' }
}

/// Plain decimal digits of a natural number, most significant first.
pub open spec fn nat_text(n: nat) -> Seq<char>
    decreases n,
{
    if n < 10 {
        seq![digit_char(n as int)]
    } else {
        nat_text(n / 10) + seq![digit_char((n % 10) as int)]
    }
}

/// Decimal text of an integer: a leading minus for negatives, no padding.
pub open spec fn int_text(v: int) -> Seq<char> {
    if v < 0 {
        seq!['-'] + nat_text((-v) as nat)
    } else {
        nat_text(v as nat)
    }
}

/// What a cell contributes to its field of an encoded line.
pub open spec fn cell_text(c: CellModel) -> Seq<char> {
    match c {
        Some(p) => p.0,
        None => Seq::empty(),
    }
}

/// A cell read as an unsigned integer; absent when the cell is null.
pub open spec fn cell_value(c: CellModel) -> Option<usize> {
    match c {
        Some(p) => Some(p.1),
        None => None,
    }
}

/// What a cell contributes to its row's total.
pub open spec fn value_or_zero(c: CellModel) -> usize {
    match cell_value(c) {
        Some(v) => v,
        None => 0,
    }
}

/// A batch seen as columns of cells: `cols[j][i]` is row `i` of column `j`.
pub open spec fn rows_at_least(cols: Seq<Seq<CellModel>>, n: nat) -> bool {
    forall|j: int| 0 <= j < cols.len() ==> #[trigger] cols[j].len() >= n
}

/// The text of column `j` in row `i`.
pub open spec fn field(cols: Seq<Seq<CellModel>>, j: int, i: int) -> Seq<char> {
    cell_text(cols[j][i])
}

/// The first `k` fields of row `i`, joined by commas.
pub open spec fn line_prefix(cols: Seq<Seq<CellModel>>, i: int, k: nat) -> Seq<char>
    decreases k,
{
    if k == 0 {
        Seq::empty()
    } else if k == 1 {
        field(cols, 0, i)
    } else {
        line_prefix(cols, i, (k - 1) as nat) + seq![','] + field(cols, k - 1, i)
    }
}

/// Row `i` as one line, without its terminator.
pub open spec fn line(cols: Seq<Seq<CellModel>>, i: int) -> Seq<char> {
    line_prefix(cols, i, cols.len())
}

/// The first `n` rows, each line followed by a newline.
pub open spec fn encoded(cols: Seq<Seq<CellModel>>, n: nat) -> Seq<char>
    decreases n,
{
    if n == 0 {
        Seq::empty()
    } else {
        encoded(cols, (n - 1) as nat) + line(cols, n - 1) + seq!['\n']
    }
}

/// The wrapping sum of the first `k` columns' values in row `i`, left to right.
pub open spec fn row_total(cols: Seq<Seq<CellModel>>, i: int, k: nat) -> usize
    decreases k,
{
    if k == 0 {
        0
    } else {
        row_total(cols, i, (k - 1) as nat).wrapping_add(value_or_zero(cols[k - 1][i]))
    }
}

/// One total per row, for the first `n` rows.
pub open spec fn totals(cols: Seq<Seq<CellModel>>, n: nat) -> Seq<usize> {
    Seq::new(n, |i: int| row_total(cols, i, cols.len()))
}

} // verus!
