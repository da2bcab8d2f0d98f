use vstd::prelude::*;

use crate::column::{ArrayTrait, Float32Array, Float64Array, Int32Array, Int64Array};
use crate::model::{encoded, line_prefix, row_total, rows_at_least, totals, CellModel};
use crate::text::push_char;

verus! {

/// One column of a batch, of one of the supported numeric kinds.
pub enum Column {
    Int32(Int32Array),
    Int64(Int64Array),
    Float32(Float32Array),
    Float64(Float64Array),
}

impl Column {
    pub open spec fn cells(&self) -> Seq<CellModel> {
        match self {
            Column::Int32(a) => a.cells(),
            Column::Int64(a) => a.cells(),
            Column::Float32(a) => a.cells(),
            Column::Float64(a) => a.cells(),
        }
    }

    /// The number of cells.
    pub fn len(&self) -> (r: usize)
        ensures
            r == self.cells().len(),
    {
        match self {
            Column::Int32(a) => a.len(),
            Column::Int64(a) => a.len(),
            Column::Float32(a) => a.len(),
            Column::Float64(a) => a.len(),
        }
    }
}

/// A batch: ordered columns that share one row count.
pub struct RecordBatch {
    pub num_rows: usize,
    pub columns: Vec<Column>,
}

impl RecordBatch {
    /// The batch as columns of cells.
    pub open spec fn view(&self) -> Seq<Seq<CellModel>> {
        self.columns@.map_values(|c: Column| c.cells())
    }

    /// Every column holds exactly `num_rows` cells.
    pub open spec fn wf(&self) -> bool {
        forall|j: int| 0 <= j < self.columns@.len() ==> #[trigger] self.columns@[j].cells().len()
            == self.num_rows
    }

    /// A batch of the given columns with `num_rows` rows; `None` unless every
    /// column holds exactly `num_rows` cells.
    pub fn try_new(num_rows: usize, columns: Vec<Column>) -> (r: Option<RecordBatch>)
        ensures
            r is Some <==> forall|j: int| 0 <= j < columns@.len() ==> #[trigger] columns@[j].cells().len()
                == num_rows,
            r matches Some(b) ==> b.num_rows == num_rows && b.columns@ == columns@ && b.wf(),
    {
        let mut j: usize = 0;
        while j < columns.len()
            invariant
                j <= columns@.len(),
                forall|k: int| 0 <= k < j ==> #[trigger] columns@[k].cells().len() == num_rows,
            decreases columns@.len() - j,
        {
            if columns[j].len() != num_rows {
                return None;
            }
            j = j + 1;
        }
        Some(RecordBatch { num_rows, columns })
    }
}

/// Closed dispatch: a view of a column of one of the supported kinds.
pub enum ArrayVariant<'a> {
    Int32(&'a Int32Array),
    Int64(&'a Int64Array),
    Float32(&'a Float32Array),
    Float64(&'a Float64Array),
}

impl<'a> ArrayTrait for ArrayVariant<'a> {
    open spec fn cells(&self) -> Seq<CellModel> {
        match self {
            ArrayVariant::Int32(a) => a.cells(),
            ArrayVariant::Int64(a) => a.cells(),
            ArrayVariant::Float32(a) => a.cells(),
            ArrayVariant::Float64(a) => a.cells(),
        }
    }

    fn len(&self) -> (r: usize) {
        match self {
            ArrayVariant::Int32(a) => a.len(),
            ArrayVariant::Int64(a) => a.len(),
            ArrayVariant::Float32(a) => a.len(),
            ArrayVariant::Float64(a) => a.len(),
        }
    }

    fn encode(&self, out: &mut String, idx: usize) {
        match self {
            ArrayVariant::Int32(a) => a.encode(out, idx),
            ArrayVariant::Int64(a) => a.encode(out, idx),
            ArrayVariant::Float32(a) => a.encode(out, idx),
            ArrayVariant::Float64(a) => a.encode(out, idx),
        }
    }

    fn usize_value(&self, idx: usize) -> (r: Option<usize>) {
        match self {
            ArrayVariant::Int32(a) => a.usize_value(idx),
            ArrayVariant::Int64(a) => a.usize_value(idx),
            ArrayVariant::Float32(a) => a.usize_value(idx),
            ArrayVariant::Float64(a) => a.usize_value(idx),
        }
    }
}

/// Open dispatch: a view behind a trait object.
impl ArrayTrait for Box<dyn ArrayTrait> {
    open spec fn cells(&self) -> Seq<CellModel> {
        (**self).cells()
    }

    fn len(&self) -> (r: usize) {
        (**self).len()
    }

    fn encode(&self, out: &mut String, idx: usize) {
        (**self).encode(out, idx)
    }

    fn usize_value(&self, idx: usize) -> (r: Option<usize>) {
        (**self).usize_value(idx)
    }
}

/// The cells of each view, in column order.
pub open spec fn views_model<T: ArrayTrait>(views: Seq<T>) -> Seq<Seq<CellModel>> {
    views.map_values(|v: T| v.cells())
}

/// One closed-dispatch view per column of the batch.
pub fn as_enum<'a>(batch: &'a RecordBatch) -> (r: Vec<ArrayVariant<'a>>)
    ensures
        views_model(r@) == batch.view(),
{
    let mut r: Vec<ArrayVariant<'a>> = Vec::new();
    let mut j: usize = 0;
    while j < batch.columns.len()
        invariant
            j <= batch.columns@.len(),
            r@.len() == j,
            forall|k: int| 0 <= k < j ==> #[trigger] r@[k].cells() == batch.columns@[k].cells(),
        decreases batch.columns@.len() - j,
    {
        let v = match &batch.columns[j] {
            Column::Int32(a) => ArrayVariant::Int32(a),
            Column::Int64(a) => ArrayVariant::Int64(a),
            Column::Float32(a) => ArrayVariant::Float32(a),
            Column::Float64(a) => ArrayVariant::Float64(a),
        };
        r.push(v);
        j = j + 1;
    }
    assert(views_model(r@) =~= batch.view());
    r
}

/// Encodes the first `num_rows` rows: per row, the views' cell texts in
/// column order joined by commas, then a newline.
pub fn encode_batch_impl<T: ArrayTrait>(num_rows: usize, encoders: &Vec<T>) -> (r: String)
    requires
        rows_at_least(views_model(encoders@), num_rows as nat),
    ensures
        r@ == encoded(views_model(encoders@), num_rows as nat),
{
    let ghost m = views_model(encoders@);
    let mut out = String::new();
    let n = encoders.len();
    let mut i: usize = 0;
    while i < num_rows
        invariant
            i <= num_rows,
            n == encoders@.len(),
            m == views_model(encoders@),
            rows_at_least(m, num_rows as nat),
            out@ == encoded(m, i as nat),
        decreases num_rows - i,
    {
        let ghost before = out@;
        if n > 0 {
            assert(m[0] == encoders@[0].cells());
            encoders[0].encode(&mut out, i);
        }
        let mut j: usize = 1;
        while j < n
            invariant
                1 <= j,
                j <= n || n == 0,
                i < num_rows,
                n == encoders@.len(),
                m == views_model(encoders@),
                rows_at_least(m, num_rows as nat),
                out@ == before + line_prefix(m, i as int, if n == 0 { 0 } else { j as nat }),
            decreases n - j,
        {
            assert(m[j as int] == encoders@[j as int].cells());
            assert(m[j as int].len() >= num_rows);
            push_char(&mut out, ',');
            encoders[j].encode(&mut out, i);
            j = j + 1;
            assert(out@ =~= before + line_prefix(m, i as int, j as nat));
        }
        push_char(&mut out, '\n');
        i = i + 1;
        assert(out@ =~= encoded(m, i as nat));
    }
    out
}

/// Sums, for each of the first `num_rows` rows, the views' cell values left
/// to right, null cells as zero, with wrapping addition.
pub fn horizontal_sum_impl<T: ArrayTrait>(num_rows: usize, encoders: &Vec<T>) -> (r: Vec<usize>)
    requires
        rows_at_least(views_model(encoders@), num_rows as nat),
    ensures
        r@ == totals(views_model(encoders@), num_rows as nat),
{
    let ghost m = views_model(encoders@);
    let mut r: Vec<usize> = Vec::new();
    let mut i: usize = 0;
    while i < num_rows
        invariant
            i <= num_rows,
            m == views_model(encoders@),
            rows_at_least(m, num_rows as nat),
            r@ =~= totals(m, i as nat),
        decreases num_rows - i,
    {
        let mut total: usize = 0;
        let mut j: usize = 0;
        while j < encoders.len()
            invariant
                j <= encoders@.len(),
                i < num_rows,
                m == views_model(encoders@),
                rows_at_least(m, num_rows as nat),
                total == row_total(m, i as int, j as nat),
            decreases encoders@.len() - j,
        {
            assert(m[j as int] == encoders@[j as int].cells());
            assert(m[j as int].len() >= num_rows);
            let v = match encoders[j].usize_value(i) {
                Some(v) => v,
                None => 0,
            };
            total = total.wrapping_add(v);
            j = j + 1;
        }
        r.push(total);
        i = i + 1;
    }
    r
}

/// Encodes every row of the batch through closed-dispatch views.
pub fn encode_batch_enum(batch: &RecordBatch) -> (r: String)
    requires
        batch.wf(),
    ensures
        r@ == encoded(batch.view(), batch.num_rows as nat),
{
    let views = as_enum(batch);
    encode_batch_impl(batch.num_rows, &views)
}

/// Sums every row of the batch through closed-dispatch views.
pub fn horizontal_sum_enum(batch: &RecordBatch) -> (r: Vec<usize>)
    requires
        batch.wf(),
    ensures
        r@ == totals(batch.view(), batch.num_rows as nat),
{
    let views = as_enum(batch);
    horizontal_sum_impl(batch.num_rows, &views)
}

/// Encodes the first `num_rows` rows through trait-object views.
pub fn encode_batch_dyn(num_rows: usize, views: &Vec<Box<dyn ArrayTrait>>) -> (r: String)
    requires
        rows_at_least(views_model(views@), num_rows as nat),
    ensures
        r@ == encoded(views_model(views@), num_rows as nat),
{
    encode_batch_impl(num_rows, views)
}

/// Sums the first `num_rows` rows through trait-object views.
pub fn horizontal_sum_dyn(num_rows: usize, views: &Vec<Box<dyn ArrayTrait>>) -> (r: Vec<usize>)
    requires
        rows_at_least(views_model(views@), num_rows as nat),
    ensures
        r@ == totals(views_model(views@), num_rows as nat),
{
    horizontal_sum_impl(num_rows, views)
}

} // verus!
