use vstd::prelude::*;

use crate::model::{cell_text, cell_value, int_text, CellModel};
use crate::text::{push_int, push_text};

verus! {

/// The uniform cell access that the row algorithms need of a column.
pub trait ArrayTrait {
    /// The column's cells, in row order.
    spec fn cells(&self) -> Seq<CellModel>;

    /// The number of cells.
    fn len(&self) -> (r: usize)
        ensures
            r == self.cells().len(),
    ;

    /// Appends the text of the cell at `idx` to `out`; a null cell appends nothing.
    fn encode(&self, out: &mut String, idx: usize)
        requires
            idx < self.cells().len(),
        ensures
            final(out)@ == old(out)@ + cell_text(self.cells()[idx as int]),
    ;

    /// The cell at `idx` as an unsigned integer, or `None` when it is null.
    fn usize_value(&self, idx: usize) -> (r: Option<usize>)
        requires
            idx < self.cells().len(),
        ensures
            r == cell_value(self.cells()[idx as int]),
    ;
}

/// A float cell as the row algorithms read it: its shortest round-trip
/// decimal text and its value cast to `usize`.
pub struct FloatValue {
    pub text: String,
    pub as_usize: usize,
}

/// A nullable column of signed 32-bit integers.
pub struct Int32Array {
    pub values: Vec<Option<i32>>,
}

/// A nullable column of signed 64-bit integers.
pub struct Int64Array {
    pub values: Vec<Option<i64>>,
}

/// A nullable column of 32-bit floats.
pub struct Float32Array {
    pub values: Vec<Option<FloatValue>>,
}

/// A nullable column of 64-bit floats.
pub struct Float64Array {
    pub values: Vec<Option<FloatValue>>,
}

pub open spec fn int_cell(c: Option<int>) -> CellModel {
    match c {
        Some(v) => Some((int_text(v), v as usize)),
        None => None,
    }
}

pub open spec fn float_cell(c: Option<FloatValue>) -> CellModel {
    match c {
        Some(f) => Some((f.text@, f.as_usize)),
        None => None,
    }
}

pub open spec fn float_cells(values: Seq<Option<FloatValue>>) -> Seq<CellModel> {
    values.map_values(|c: Option<FloatValue>| float_cell(c))
}

fn encode_float(values: &Vec<Option<FloatValue>>, out: &mut String, idx: usize)
    requires
        idx < values@.len(),
    ensures
        final(out)@ == old(out)@ + cell_text(float_cells(values@)[idx as int]),
{
    match &values[idx] {
        Some(f) => push_text(out, f.text.as_str()),
        None => {},
    }
}

fn float_usize_value(values: &Vec<Option<FloatValue>>, idx: usize) -> (r: Option<usize>)
    requires
        idx < values@.len(),
    ensures
        r == cell_value(float_cells(values@)[idx as int]),
{
    match &values[idx] {
        Some(f) => Some(f.as_usize),
        None => None,
    }
}

impl ArrayTrait for Int32Array {
    open spec fn cells(&self) -> Seq<CellModel> {
        self.values@.map_values(
            |c: Option<i32>|
                match c {
                    Some(v) => int_cell(Some(v as int)),
                    None => int_cell(None),
                },
        )
    }

    fn len(&self) -> (r: usize) {
        self.values.len()
    }

    fn encode(&self, out: &mut String, idx: usize) {
        match self.values[idx] {
            Some(v) => push_int(out, v as i64),
            None => {},
        }
    }

    fn usize_value(&self, idx: usize) -> (r: Option<usize>) {
        match self.values[idx] {
            Some(v) => Some(v as usize),
            None => None,
        }
    }
}

impl ArrayTrait for Int64Array {
    open spec fn cells(&self) -> Seq<CellModel> {
        self.values@.map_values(
            |c: Option<i64>|
                match c {
                    Some(v) => int_cell(Some(v as int)),
                    None => int_cell(None),
                },
        )
    }

    fn len(&self) -> (r: usize) {
        self.values.len()
    }

    fn encode(&self, out: &mut String, idx: usize) {
        match self.values[idx] {
            Some(v) => push_int(out, v),
            None => {},
        }
    }

    fn usize_value(&self, idx: usize) -> (r: Option<usize>) {
        match self.values[idx] {
            Some(v) => Some(v as usize),
            None => None,
        }
    }
}

impl ArrayTrait for Float32Array {
    open spec fn cells(&self) -> Seq<CellModel> {
        float_cells(self.values@)
    }

    fn len(&self) -> (r: usize) {
        self.values.len()
    }

    fn encode(&self, out: &mut String, idx: usize) {
        encode_float(&self.values, out, idx)
    }

    fn usize_value(&self, idx: usize) -> (r: Option<usize>) {
        float_usize_value(&self.values, idx)
    }
}

impl ArrayTrait for Float64Array {
    open spec fn cells(&self) -> Seq<CellModel> {
        float_cells(self.values@)
    }

    fn len(&self) -> (r: usize) {
        self.values.len()
    }

    fn encode(&self, out: &mut String, idx: usize) {
        encode_float(&self.values, out, idx)
    }

    fn usize_value(&self, idx: usize) -> (r: Option<usize>) {
        float_usize_value(&self.values, idx)
    }
}

} // verus!
