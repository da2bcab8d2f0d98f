use vstd::prelude::*;

use crate::batch::{views_model, RecordBatch};
use crate::column::ArrayTrait;
use crate::model::{
    cell_text, encoded, field, line, line_prefix, row_total, rows_at_least, totals, value_or_zero,
    CellModel,
};

verus! {

/// The number of newline characters in a text.
pub open spec fn newlines(s: Seq<char>) -> nat
    decreases s.len(),
{
    if s.len() == 0 {
        0
    } else {
        newlines(s.drop_last()) + if s.last() == '\n' { 1nat } else { 0nat }
    }
}

proof fn lemma_newlines_add(a: Seq<char>, b: Seq<char>)
    ensures
        newlines(a + b) == newlines(a) + newlines(b),
    decreases b.len(),
{
    if b.len() > 0 {
        assert((a + b).drop_last() =~= a + b.drop_last());
        lemma_newlines_add(a, b.drop_last());
    } else {
        assert(a + b =~= a);
    }
}

proof fn lemma_newlines_absent(s: Seq<char>)
    requires
        !s.contains('\n'),
    ensures
        newlines(s) == 0,
    decreases s.len(),
{
    if s.len() > 0 {
        assert(!s.drop_last().contains('\n')) by {
            if s.drop_last().contains('\n') {
                let k = choose|k: int| 0 <= k < s.drop_last().len() && s.drop_last()[k] == '\n';
                assert(s[k] == '\n');
            }
        }
        assert(s[s.len() - 1] != '\n');
        lemma_newlines_absent(s.drop_last());
    }
}

proof fn lemma_line_prefix_newlines(cols: Seq<Seq<CellModel>>, i: int, k: nat)
    requires
        k <= cols.len(),
        forall|j: int| 0 <= j < cols.len() ==> !(#[trigger] field(cols, j, i)).contains('\n'),
    ensures
        newlines(line_prefix(cols, i, k)) == 0,
    decreases k,
{
    if k == 0 {
    } else if k == 1 {
        lemma_newlines_absent(field(cols, 0, i));
    } else {
        lemma_line_prefix_newlines(cols, i, (k - 1) as nat);
        lemma_newlines_absent(field(cols, k - 1, i));
        lemma_newlines_add(line_prefix(cols, i, (k - 1) as nat), seq![',']);
        assert(newlines(seq![',']) == 0) by {
            assert(seq![','].drop_last() =~= Seq::<char>::empty());
            assert(newlines(Seq::<char>::empty()) == 0);
            assert(seq![','].last() == ',');
        }
        lemma_newlines_add(line_prefix(cols, i, (k - 1) as nat) + seq![','], field(cols, k - 1, i));
    }
}

/// Both realizations of the column views agree: views of either kind that
/// show the cells of a batch encode and sum every row exactly as the batch does.
pub proof fn lemma_dispatch_equivalence<T: ArrayTrait, U: ArrayTrait>(
    batch: RecordBatch,
    open_views: Seq<T>,
    closed_views: Seq<U>,
)
    requires
        views_model(open_views) == batch.view(),
        views_model(closed_views) == batch.view(),
    ensures
        encoded(views_model(open_views), batch.num_rows as nat) == encoded(
            views_model(closed_views),
            batch.num_rows as nat,
        ),
        totals(views_model(open_views), batch.num_rows as nat) == totals(
            views_model(closed_views),
            batch.num_rows as nat,
        ),
{
}

/// A null cell adds no character to its field.
pub proof fn lemma_null_encodes_empty(cols: Seq<Seq<CellModel>>, j: int, i: int)
    requires
        0 <= j < cols.len(),
        0 <= i < cols[j].len(),
        cols[j][i] is None,
    ensures
        field(cols, j, i) == Seq::<char>::empty(),
{
}

/// A null cell adds zero to its row's total.
pub proof fn lemma_null_sums_as_zero(cols: Seq<Seq<CellModel>>, j: int, i: int)
    requires
        0 <= j < cols.len(),
        0 <= i < cols[j].len(),
        cols[j][i] is None,
    ensures
        row_total(cols, i, (j + 1) as nat) == row_total(cols, i, j as nat),
{
    assert(value_or_zero(cols[j][i]) == 0);
}

/// An encoding of `n` rows holds exactly `n` newlines, one ending each row,
/// when no cell text holds a newline itself; the totals hold one entry per row.
pub proof fn lemma_one_line_per_row(cols: Seq<Seq<CellModel>>, n: nat)
    requires
        rows_at_least(cols, n),
        forall|j: int, i: int|
            0 <= j < cols.len() && 0 <= i < n ==> !(#[trigger] cell_text(cols[j][i])).contains(
                '\n',
            ),
    ensures
        newlines(encoded(cols, n)) == n,
        encoded(cols, n).len() == 0 || encoded(cols, n).last() == '\n',
        totals(cols, n).len() == n,
    decreases n,
{
    if n > 0 {
        let m = (n - 1) as nat;
        lemma_one_line_per_row(cols, m);
        assert forall|j: int| 0 <= j < cols.len() implies !(#[trigger] field(
            cols,
            j,
            m as int,
        )).contains('\n') by {
            assert(!cell_text(cols[j][m as int]).contains('\n'));
        }
        lemma_line_prefix_newlines(cols, m as int, cols.len());
        lemma_newlines_add(encoded(cols, m), line(cols, m as int));
        lemma_newlines_add(encoded(cols, m) + line(cols, m as int), seq!['\n']);
        assert(newlines(seq!['\n']) == 1) by {
            assert(seq!['\n'].drop_last() =~= Seq::<char>::empty());
            assert(newlines(Seq::<char>::empty()) == 0);
            assert(seq!['\n'].last() == '\n');
        }
    }
}

/// With no columns, every row encodes as a bare newline and totals zero.
pub proof fn lemma_no_columns(cols: Seq<Seq<CellModel>>, n: nat)
    requires
        cols.len() == 0,
    ensures
        encoded(cols, n) == Seq::new(n, |i: int| '\n'),
        totals(cols, n) == Seq::new(n, |i: int| 0usize),
    decreases n,
{
    if n > 0 {
        lemma_no_columns(cols, (n - 1) as nat);
        assert(line(cols, n - 1) =~= Seq::<char>::empty());
        assert(encoded(cols, n) =~= Seq::new(n, |i: int| '\n'));
    }
    assert(totals(cols, n) =~= Seq::new(n, |i: int| 0usize));
}

/// With no rows, the encoding is empty and there are no totals.
pub proof fn lemma_no_rows(cols: Seq<Seq<CellModel>>)
    ensures
        encoded(cols, 0) == Seq::<char>::empty(),
        totals(cols, 0) == Seq::<usize>::empty(),
{
    assert(totals(cols, 0) =~= Seq::<usize>::empty());
}

/// The batch with columns `k` and `k + 1` trading places.
pub open spec fn swap_adjacent(cols: Seq<Seq<CellModel>>, k: int) -> Seq<Seq<CellModel>> {
    cols.update(k, cols[k + 1]).update(k + 1, cols[k])
}

proof fn lemma_wrapping_add_swap(t: usize, a: usize, b: usize)
    ensures
        t.wrapping_add(a).wrapping_add(b) == t.wrapping_add(b).wrapping_add(a),
{
}

proof fn lemma_row_total_swap(cols: Seq<Seq<CellModel>>, k: int, i: int, p: nat)
    requires
        0 <= k,
        k + 1 < cols.len(),
        p <= cols.len(),
    ensures
        p <= k ==> row_total(swap_adjacent(cols, k), i, p) == row_total(cols, i, p),
        p >= k + 2 ==> row_total(swap_adjacent(cols, k), i, p) == row_total(cols, i, p),
    decreases p,
{
    let s = swap_adjacent(cols, k);
    if p > 0 {
        lemma_row_total_swap(cols, k, i, (p - 1) as nat);
        if p == k + 2 {
            lemma_row_total_swap(cols, k, i, k as nat);
            lemma_wrapping_add_swap(
                row_total(cols, i, k as nat),
                value_or_zero(cols[k][i]),
                value_or_zero(cols[k + 1][i]),
            );
            assert(s[k] == cols[k + 1]);
            assert(s[k + 1] == cols[k]);
            assert(row_total(s, i, (k + 1) as nat) == row_total(s, i, k as nat).wrapping_add(
                value_or_zero(cols[k + 1][i]),
            ));
            assert(row_total(cols, i, (k + 1) as nat) == row_total(cols, i, k as nat).wrapping_add(
                value_or_zero(cols[k][i]),
            ));
        } else if p > k + 2 {
            assert(s[p - 1] == cols[p - 1]);
        } else if p <= k {
            assert(s[p - 1] == cols[p - 1]);
        }
    }
}

/// Trading the places of two neighbouring columns leaves every row's total
/// unchanged.
pub proof fn lemma_totals_ignore_adjacent_swap(cols: Seq<Seq<CellModel>>, k: int, n: nat)
    requires
        0 <= k,
        k + 1 < cols.len(),
    ensures
        totals(swap_adjacent(cols, k), n) == totals(cols, n),
{
    assert forall|i: int| 0 <= i < n implies #[trigger] row_total(swap_adjacent(cols, k), i, cols.len())
        == row_total(cols, i, cols.len()) by {
        lemma_row_total_swap(cols, k, i, cols.len());
    }
    assert(totals(swap_adjacent(cols, k), n) =~= totals(cols, n));
}

} // verus!
