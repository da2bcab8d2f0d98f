use enum_trait::batch::{
    encode_batch_dyn, encode_batch_enum, horizontal_sum_dyn, horizontal_sum_enum, Column,
    RecordBatch,
};
use enum_trait::column::{ArrayTrait, Float32Array, Float64Array, FloatValue, Int32Array, Int64Array};

fn f32_value(v: f32) -> FloatValue {
    FloatValue { text: format!("{}", v), as_usize: v as usize }
}

fn f64_value(v: f64) -> FloatValue {
    FloatValue { text: format!("{}", v), as_usize: v as usize }
}

fn int32(v: Vec<Option<i32>>) -> Int32Array {
    Int32Array { values: v }
}

fn int64(v: Vec<Option<i64>>) -> Int64Array {
    Int64Array { values: v }
}

fn float32(v: Vec<f32>) -> Float32Array {
    Float32Array { values: v.into_iter().map(|x| Some(f32_value(x))).collect() }
}

fn float64(v: Vec<f64>) -> Float64Array {
    Float64Array { values: v.into_iter().map(|x| Some(f64_value(x))).collect() }
}

fn basic_batch() -> RecordBatch {
    RecordBatch::try_new(
        4,
        vec![
            Column::Int32(int32(vec![Some(1), Some(2), Some(3), Some(4)])),
            Column::Int64(int64(vec![Some(1), Some(2), Some(3), Some(4)])),
            Column::Float32(float32(vec![1., 2., 3., 4.])),
            Column::Float64(float64(vec![1., 2., 3., 4.])),
        ],
    )
    .unwrap()
}

fn basic_views() -> Vec<Box<dyn ArrayTrait>> {
    vec![
        Box::new(int32(vec![Some(1), Some(2), Some(3), Some(4)])),
        Box::new(int64(vec![Some(1), Some(2), Some(3), Some(4)])),
        Box::new(float32(vec![1., 2., 3., 4.])),
        Box::new(float64(vec![1., 2., 3., 4.])),
    ]
}

#[test]
fn test_basic() {
    let views = basic_views();
    let encoded = encode_batch_dyn(4, &views);
    assert_eq!(encoded, "1,1,1,1\n2,2,2,2\n3,3,3,3\n4,4,4,4\n");
    let sum = horizontal_sum_dyn(4, &views);
    assert_eq!(sum, &[4, 8, 12, 16]);

    let batch = basic_batch();
    let encoded = encode_batch_enum(&batch);
    assert_eq!(encoded, "1,1,1,1\n2,2,2,2\n3,3,3,3\n4,4,4,4\n");
    let sum = horizontal_sum_enum(&batch);
    assert_eq!(sum, &[4, 8, 12, 16]);
}

#[test]
fn dispatch_paths_agree_with_nulls() {
    let batch = RecordBatch::try_new(
        3,
        vec![
            Column::Int64(int64(vec![Some(-7), None, Some(9000000000)])),
            Column::Int32(int32(vec![None, Some(5), Some(-1)])),
        ],
    )
    .unwrap();
    let views: Vec<Box<dyn ArrayTrait>> = vec![
        Box::new(int64(vec![Some(-7), None, Some(9000000000)])),
        Box::new(int32(vec![None, Some(5), Some(-1)])),
    ];
    assert_eq!(encode_batch_enum(&batch), encode_batch_dyn(3, &views));
    assert_eq!(horizontal_sum_enum(&batch), horizontal_sum_dyn(3, &views));
}

#[test]
fn null_cells_encode_as_empty_fields() {
    let batch = RecordBatch::try_new(
        2,
        vec![
            Column::Int32(int32(vec![Some(1), None])),
            Column::Int32(int32(vec![None, None])),
            Column::Int64(int64(vec![Some(3), Some(4)])),
        ],
    )
    .unwrap();
    assert_eq!(encode_batch_enum(&batch), "1,,3\n,,4\n");
}

#[test]
fn null_cells_sum_as_zero() {
    let batch = RecordBatch::try_new(
        2,
        vec![
            Column::Int32(int32(vec![Some(1), None])),
            Column::Int64(int64(vec![None, Some(4)])),
        ],
    )
    .unwrap();
    assert_eq!(horizontal_sum_enum(&batch), vec![1, 4]);
}

#[test]
fn one_line_and_one_total_per_row() {
    let batch = RecordBatch::try_new(
        5,
        vec![Column::Int64(int64(vec![Some(10), None, Some(-3), Some(0), Some(7)]))],
    )
    .unwrap();
    let encoded = encode_batch_enum(&batch);
    assert_eq!(encoded, "10\n\n-3\n0\n7\n");
    assert_eq!(encoded.matches('\n').count(), 5);
    assert_eq!(horizontal_sum_enum(&batch).len(), 5);
}

#[test]
fn zero_columns_give_empty_lines_and_zeros() {
    let batch = RecordBatch::try_new(3, vec![]).unwrap();
    assert_eq!(encode_batch_enum(&batch), "\n\n\n");
    assert_eq!(horizontal_sum_enum(&batch), vec![0, 0, 0]);
    let views: Vec<Box<dyn ArrayTrait>> = vec![];
    assert_eq!(encode_batch_dyn(3, &views), "\n\n\n");
    assert_eq!(horizontal_sum_dyn(3, &views), vec![0, 0, 0]);
}

#[test]
fn zero_rows_give_empty_results() {
    let batch = RecordBatch::try_new(
        0,
        vec![Column::Int32(int32(vec![])), Column::Float64(float64(vec![]))],
    )
    .unwrap();
    assert_eq!(encode_batch_enum(&batch), "");
    assert!(horizontal_sum_enum(&batch).is_empty());
}

#[test]
fn column_order_changes_fields_not_totals() {
    let a = || Column::Int32(int32(vec![Some(1), Some(20)]));
    let b = || Column::Int64(int64(vec![Some(300), None]));
    let ab = RecordBatch::try_new(2, vec![a(), b()]).unwrap();
    let ba = RecordBatch::try_new(2, vec![b(), a()]).unwrap();
    assert_eq!(encode_batch_enum(&ab), "1,300\n20,\n");
    assert_eq!(encode_batch_enum(&ba), "300,1\n,20\n");
    assert_eq!(horizontal_sum_enum(&ab), horizontal_sum_enum(&ba));
    assert_eq!(horizontal_sum_enum(&ab), vec![301, 20]);
}

#[test]
fn float_text_and_truncated_value() {
    let batch = RecordBatch::try_new(
        2,
        vec![
            Column::Float64(Float64Array { values: vec![Some(f64_value(2.5)), None] }),
            Column::Float32(Float32Array { values: vec![Some(f32_value(0.1)), Some(f32_value(7.9))] }),
        ],
    )
    .unwrap();
    assert_eq!(encode_batch_enum(&batch), "2.5,0.1\n,7.9\n");
    assert_eq!(horizontal_sum_enum(&batch), vec![2, 7]);
}

#[test]
fn integer_extremes_encode_in_decimal() {
    let batch = RecordBatch::try_new(
        1,
        vec![
            Column::Int64(int64(vec![Some(i64::MIN)])),
            Column::Int32(int32(vec![Some(i32::MAX)])),
        ],
    )
    .unwrap();
    assert_eq!(encode_batch_enum(&batch), "-9223372036854775808,2147483647\n");
}

#[test]
fn negative_values_cast_and_sum_wrap() {
    let batch = RecordBatch::try_new(
        1,
        vec![
            Column::Int32(int32(vec![Some(-1)])),
            Column::Int64(int64(vec![Some(3)])),
        ],
    )
    .unwrap();
    assert_eq!(horizontal_sum_enum(&batch), vec![2]);
}

#[test]
fn mismatched_column_lengths_are_refused() {
    let r = RecordBatch::try_new(
        2,
        vec![Column::Int32(int32(vec![Some(1), Some(2)])), Column::Int64(int64(vec![Some(1)]))],
    );
    assert!(r.is_none());
}

#[test]
fn column_views_report_cells() {
    let a = int32(vec![Some(4), None, Some(-2)]);
    assert_eq!(a.len(), 3);
    assert_eq!(a.usize_value(0), Some(4));
    assert_eq!(a.usize_value(1), None);
    let mut out = String::from("x");
    a.encode(&mut out, 2);
    a.encode(&mut out, 1);
    assert_eq!(out, "x-2");
}
