use llamas2::array::{Array, F64Bits};
use llamas2::array_data::ArrayData;
use llamas2::dataframe::DataFrame;
use llamas2::datatype::DataType;
use llamas2::dtype::DType;
use llamas2::error::Error;
use llamas2::iter::{ArrayIterator, DataTypeIterator};
use llamas2::melt::melt;

fn all<T: Clone + Send + Sync>(mut it: ArrayIterator<T>) -> Vec<T> {
    let mut out = vec![];
    while let Some(Some(x)) = it.next() {
        out.push(x.clone());
    }
    out
}

fn names(df: &DataFrame) -> Vec<String> {
    df.columns.keys().cloned().collect()
}

fn wide() -> DataFrame {
    let mut df = DataFrame::new();
    df.add_col("id".to_owned(), Array::Int8(ArrayData::from_vec(vec![1, 2, 3])));
    df.add_col("A".to_owned(), Array::Int8(ArrayData::from_vec(vec![10, 20, 30])));
    df.add_col("B".to_owned(), Array::Int8(ArrayData::from_vec(vec![11, 21, 31])));
    df
}

/// Melts one column of one element into a column of type `to`.
fn convert(source: Array, declared: DType, to: DType) -> Result<Array, Error> {
    let mut df = DataFrame::new();
    df.add_col("row".to_owned(), Array::UInt8(ArrayData::from_vec(vec![0])));
    df.add_col("x".to_owned(), source);
    let long = melt(&df, &["row"], &[("x", declared)], to, "var", "value")?;
    Ok(long.get_col("value").unwrap().clone())
}

#[test]
fn table_starts_empty_and_finds_what_was_added() {
    let mut df = DataFrame::new();
    assert_eq!(df.columns.len(), 0);
    assert!(df.get_col("id").is_none());
    df.add_col("id".to_owned(), Array::UInt8(ArrayData::from_vec(vec![1])));
    assert!(df.get_col("id").is_some());
    assert!(df.get_col("ID").is_none());
    assert!(df.get_col("").is_none());
    assert_eq!(df.get_col("id").unwrap().dtype(), "UInt8");
}

#[test]
fn add_col_twice_keeps_only_the_later_column() {
    let mut df = DataFrame::new();
    df.add_col("a".to_owned(), Array::Int8(ArrayData::from_vec(vec![1, 2])));
    df.add_col("b".to_owned(), Array::Int8(ArrayData::from_vec(vec![3])));
    df.add_col("a".to_owned(), Array::UInt16(ArrayData::from_vec(vec![7, 8, 9])));
    assert_eq!(df.columns.len(), 2);
    assert_eq!(names(&df), vec!["a", "b"]);
    let a = df.get_col("a").unwrap();
    assert_eq!(a.dtype(), "UInt16");
    assert_eq!(all(DataTypeIterator::<u16>::values(a).unwrap()), vec![7, 8, 9]);
    assert_eq!(
        all(DataTypeIterator::<i8>::values(df.get_col("b").unwrap()).unwrap()),
        vec![3]
    );

    let mut once = DataFrame::new();
    once.add_col("a".to_owned(), Array::UInt16(ArrayData::from_vec(vec![7, 8, 9])));
    once.add_col("b".to_owned(), Array::Int8(ArrayData::from_vec(vec![3])));
    assert_eq!(names(&once), names(&df));
}

#[test]
fn add_col_does_not_ask_for_equal_lengths() {
    let mut df = DataFrame::new();
    df.add_col("short".to_owned(), Array::Int8(ArrayData::from_vec(vec![1])));
    df.add_col("long".to_owned(), Array::Int8(ArrayData::from_vec(vec![1, 2, 3, 4])));
    assert_eq!(df.get_col("short").unwrap().len(), 1);
    assert_eq!(df.get_col("long").unwrap().len(), 4);
}

#[test]
fn melt_aligns_identifier_variable_and_value() {
    let df = wide();
    let long = melt(
        &df,
        &["id"],
        &[("A", DType::Int8), ("B", DType::Int8)],
        DType::UInt8,
        "var",
        "value",
    )
    .unwrap();
    assert_eq!(names(&long), vec!["id", "var", "value"]);
    let id = all(DataTypeIterator::<i8>::values(long.get_col("id").unwrap()).unwrap());
    let var = all(DataTypeIterator::<String>::values(long.get_col("var").unwrap()).unwrap());
    let value = all(DataTypeIterator::<u8>::values(long.get_col("value").unwrap()).unwrap());
    assert_eq!(id, vec![1, 1, 2, 2, 3, 3]);
    assert_eq!(var, vec!["A", "B", "A", "B", "A", "B"]);
    assert_eq!(value, vec![10, 11, 20, 21, 30, 31]);
    assert_eq!(long.get_col("var").unwrap().dtype(), "Str");
    assert_eq!(long.get_col("value").unwrap().dtype(), "UInt8");
    assert_eq!(long.get_col("id").unwrap().dtype(), "Int8");

    let a = all(DataTypeIterator::<i8>::values(df.get_col("A").unwrap()).unwrap());
    let b = all(DataTypeIterator::<i8>::values(df.get_col("B").unwrap()).unwrap());
    for i in 0..3 {
        for (j, (name, column)) in [("A", &a), ("B", &b)].iter().enumerate() {
            assert_eq!(id[i * 2 + j], (i + 1) as i8);
            assert_eq!(&var[i * 2 + j], name);
            assert_eq!(value[i * 2 + j], column[i] as u8);
        }
    }
}

#[test]
fn melt_leaves_the_wide_table_as_it_was() {
    let df = wide();
    melt(&df, &["id"], &[("A", DType::Int8)], DType::Int64, "var", "value").unwrap();
    assert_eq!(names(&df), vec!["id", "A", "B"]);
    assert_eq!(
        all(DataTypeIterator::<i8>::values(df.get_col("A").unwrap()).unwrap()),
        vec![10, 20, 30]
    );
}

#[test]
fn melt_without_a_value_column_fails_with_its_name() {
    let df = wide();
    let res = melt(
        &df,
        &["id"],
        &[("A", DType::Int8), ("C", DType::Int8), ("D", DType::Int8)],
        DType::UInt8,
        "var",
        "value",
    );
    match res {
        Err(Error::ColumnNotFound { name }) => assert_eq!(name, "C"),
        other => panic!("{:?}", other),
    }
}

#[test]
fn melt_checks_value_columns_before_identifier_columns() {
    let df = wide();
    let res = melt(&df, &["nope"], &[("gone", DType::Int8)], DType::UInt8, "var", "value");
    assert_eq!(res.err(), Some(Error::ColumnNotFound { name: "gone".to_owned() }));
    let res = melt(
        &df,
        &["id", "nope", "nada"],
        &[("A", DType::Int8)],
        DType::UInt8,
        "var",
        "value",
    );
    assert_eq!(res.err(), Some(Error::ColumnNotFound { name: "nope".to_owned() }));
}

#[test]
fn melt_refuses_a_column_of_another_type_than_declared() {
    let df = wide();
    let res = melt(
        &df,
        &["id"],
        &[("A", DType::Int8), ("B", DType::Int16)],
        DType::UInt8,
        "var",
        "value",
    );
    assert_eq!(
        res.err(),
        Some(Error::ReshapeTypeMismatch { name: "B".to_owned(), actual: DType::Int8 })
    );
}

#[test]
fn melt_refuses_a_value_column_that_is_too_short() {
    let mut df = wide();
    df.add_col("B".to_owned(), Array::Int8(ArrayData::from_vec(vec![11, 21])));
    let res = melt(
        &df,
        &["id"],
        &[("A", DType::Int8), ("B", DType::Int8)],
        DType::UInt8,
        "var",
        "value",
    );
    assert_eq!(
        res.err(),
        Some(Error::IndexOutOfRange { name: "B".to_owned(), index: 2 })
    );
}

#[test]
fn melt_reports_the_first_failure_row_by_row() {
    let mut df = wide();
    df.add_col("A".to_owned(), Array::Int8(ArrayData::from_vec(vec![10])));
    let res = melt(
        &df,
        &["id"],
        &[("A", DType::Int8), ("B", DType::UInt8)],
        DType::UInt8,
        "var",
        "value",
    );
    assert_eq!(
        res.err(),
        Some(Error::ReshapeTypeMismatch { name: "B".to_owned(), actual: DType::Int8 })
    );
    let res = melt(
        &df,
        &["id"],
        &[("A", DType::Int8), ("B", DType::Int8)],
        DType::UInt8,
        "var",
        "value",
    );
    assert_eq!(
        res.err(),
        Some(Error::IndexOutOfRange { name: "A".to_owned(), index: 1 })
    );
}

#[test]
fn melt_takes_the_longest_identifier_column_for_the_rows() {
    let mut df = DataFrame::new();
    df.add_col("short".to_owned(), Array::UInt8(ArrayData::from_vec(vec![1, 2])));
    df.add_col("long".to_owned(), Array::UInt8(ArrayData::from_vec(vec![1, 2, 3])));
    df.add_col("v".to_owned(), Array::Int16(ArrayData::from_vec(vec![-1, -2, -3])));
    df.add_col("w".to_owned(), Array::Int16(ArrayData::from_vec(vec![7, 8, 9])));
    let long = melt(
        &df,
        &["short", "long"],
        &[("v", DType::Int16), ("w", DType::Int16)],
        DType::Int32,
        "variable",
        "value",
    )
    .unwrap();
    assert_eq!(long.get_col("short").unwrap().len(), 4);
    assert_eq!(long.get_col("long").unwrap().len(), 6);
    assert_eq!(long.get_col("variable").unwrap().len(), 6);
    assert_eq!(
        all(DataTypeIterator::<i32>::values(long.get_col("value").unwrap()).unwrap()),
        vec![-1, 7, -2, 8, -3, 9]
    );

    let res = melt(
        &df,
        &["long"],
        &[("short", DType::UInt8)],
        DType::UInt8,
        "variable",
        "value",
    );
    assert_eq!(
        res.err(),
        Some(Error::IndexOutOfRange { name: "short".to_owned(), index: 2 })
    );
}

#[test]
fn melt_without_rows_or_without_value_columns_gives_empty_columns() {
    let df = wide();
    let long = melt(&df, &[], &[("A", DType::Int16)], DType::UInt8, "var", "value").unwrap();
    assert_eq!(names(&long), vec!["var", "value"]);
    assert_eq!(long.get_col("var").unwrap().len(), 0);
    assert_eq!(long.get_col("value").unwrap().len(), 0);
    assert_eq!(long.get_col("value").unwrap().dtype(), "UInt8");

    let long = melt(&df, &["id"], &[], DType::Float32, "var", "value").unwrap();
    assert_eq!(names(&long), vec!["id", "var", "value"]);
    assert_eq!(long.get_col("id").unwrap().len(), 0);
    assert_eq!(long.get_col("var").unwrap().len(), 0);
    assert_eq!(long.get_col("value").unwrap().dtype(), "Float32");
}

#[test]
fn melt_puts_later_columns_over_earlier_ones_of_the_same_name() {
    let df = wide();
    let long = melt(
        &df,
        &["id", "id"],
        &[("A", DType::Int8)],
        DType::Int8,
        "id",
        "value",
    )
    .unwrap();
    assert_eq!(names(&long), vec!["id", "value"]);
    assert_eq!(
        all(DataTypeIterator::<String>::values(long.get_col("id").unwrap()).unwrap()),
        vec!["A", "A", "A"]
    );
}

#[test]
fn melt_converts_integers_as_a_cast_does() {
    let cases: Vec<(i64, DType, i128)> = vec![
        (-1, DType::UInt8, 255),
        (-1, DType::UInt16, 65535),
        (-1, DType::UInt32, 4294967295),
        (-1, DType::UInt64, 18446744073709551615),
        (300, DType::UInt8, 44),
        (300, DType::Int8, 44),
        (200, DType::Int8, -56),
        (-129, DType::Int8, 127),
        (-128, DType::Int8, -128),
        (128, DType::Int8, -128),
        (65536, DType::UInt16, 0),
        (40000, DType::Int16, -25536),
        (-40000, DType::Int16, 25536),
        (3000000000, DType::Int32, -1294967296),
        (-3000000000, DType::UInt32, 1294967296),
        (i64::MIN, DType::Int32, 0),
        (i64::MIN, DType::UInt64, 9223372036854775808),
        (i64::MAX, DType::Int16, -1),
        (i64::MAX, DType::Int64, i64::MAX as i128),
        (i64::MIN, DType::Int64, i64::MIN as i128),
        (5, DType::Int64, 5),
    ];
    for (x, to, expected) in cases {
        let got = convert(Array::Int64(ArrayData::from_vec(vec![x])), DType::Int64, to).unwrap();
        assert_eq!(got.dtype_tag(), to);
        assert_eq!(got.len(), 1);
        let value: i128 = match &got {
            Array::Int8(_) => *all(DataTypeIterator::<i8>::values(&got).unwrap()).first().unwrap() as i128,
            Array::Int16(_) => *all(DataTypeIterator::<i16>::values(&got).unwrap()).first().unwrap() as i128,
            Array::Int32(_) => *all(DataTypeIterator::<i32>::values(&got).unwrap()).first().unwrap() as i128,
            Array::Int64(_) => *all(DataTypeIterator::<i64>::values(&got).unwrap()).first().unwrap() as i128,
            Array::UInt8(_) => *all(DataTypeIterator::<u8>::values(&got).unwrap()).first().unwrap() as i128,
            Array::UInt16(_) => *all(DataTypeIterator::<u16>::values(&got).unwrap()).first().unwrap() as i128,
            Array::UInt32(_) => *all(DataTypeIterator::<u32>::values(&got).unwrap()).first().unwrap() as i128,
            Array::UInt64(_) => *all(DataTypeIterator::<u64>::values(&got).unwrap()).first().unwrap() as i128,
            other => panic!("{:?}", other),
        };
        assert_eq!(value, expected, "{} to {:?}", x, to);
    }
}

#[test]
fn melt_converts_from_every_integer_type() {
    let got = convert(Array::UInt64(ArrayData::from_vec(vec![u64::MAX])), DType::UInt64, DType::Int64).unwrap();
    assert_eq!(all(DataTypeIterator::<i64>::values(&got).unwrap()), vec![-1]);
    let got = convert(Array::UInt64(ArrayData::from_vec(vec![u64::MAX])), DType::UInt64, DType::UInt64).unwrap();
    assert_eq!(all(DataTypeIterator::<u64>::values(&got).unwrap()), vec![u64::MAX]);
    let got = convert(Array::UInt32(ArrayData::from_vec(vec![u32::MAX])), DType::UInt32, DType::Int8).unwrap();
    assert_eq!(all(DataTypeIterator::<i8>::values(&got).unwrap()), vec![-1]);
    let got = convert(Array::UInt16(ArrayData::from_vec(vec![513])), DType::UInt16, DType::UInt8).unwrap();
    assert_eq!(all(DataTypeIterator::<u8>::values(&got).unwrap()), vec![1]);
    let got = convert(Array::UInt8(ArrayData::from_vec(vec![255])), DType::UInt8, DType::Int16).unwrap();
    assert_eq!(all(DataTypeIterator::<i16>::values(&got).unwrap()), vec![255]);
    let got = convert(Array::Int8(ArrayData::from_vec(vec![-128])), DType::Int8, DType::UInt64).unwrap();
    assert_eq!(all(DataTypeIterator::<u64>::values(&got).unwrap()), vec![18446744073709551488]);
    let got = convert(Array::Int16(ArrayData::from_vec(vec![-2])), DType::Int16, DType::UInt32).unwrap();
    assert_eq!(all(DataTypeIterator::<u32>::values(&got).unwrap()), vec![4294967294]);
    let got = convert(Array::Int32(ArrayData::from_vec(vec![i32::MIN])), DType::Int32, DType::Int64).unwrap();
    assert_eq!(all(DataTypeIterator::<i64>::values(&got).unwrap()), vec![-2147483648]);
}

#[test]
fn melt_keeps_texts_and_float_bits_of_the_same_type() {
    let got = convert(
        Array::Str(ArrayData::from_vec(vec!["hello".to_owned()])),
        DType::Str,
        DType::Str,
    )
    .unwrap();
    assert_eq!(all(DataTypeIterator::<String>::values(&got).unwrap()), vec!["hello"]);

    let got = convert(
        Array::Float64(ArrayData::from_vec(vec![F64Bits { bits: 2.5f64.to_bits() }])),
        DType::Float64,
        DType::Float64,
    )
    .unwrap();
    let first: Option<Option<&F64Bits>> = got.get(0).unwrap();
    assert_eq!(f64::from_bits(first.unwrap().unwrap().bits), 2.5);
}

#[test]
fn melt_has_no_conversion_between_texts_floats_and_integers() {
    let pairs = [
        (Array::Str(ArrayData::from_vec(vec!["1".to_owned()])), DType::Str, DType::UInt8),
        (Array::Int8(ArrayData::from_vec(vec![1])), DType::Int8, DType::Str),
        (Array::Int8(ArrayData::from_vec(vec![1])), DType::Int8, DType::Float64),
        (
            Array::Float64(ArrayData::from_vec(vec![F64Bits { bits: 0 }])),
            DType::Float64,
            DType::Float32,
        ),
        (
            Array::Float64(ArrayData::from_vec(vec![F64Bits { bits: 0 }])),
            DType::Float64,
            DType::Int64,
        ),
    ];
    for (source, from, to) in pairs {
        assert_eq!(
            convert(source, from, to).err(),
            Some(Error::UnsupportedCoercion { from, to })
        );
    }
}

#[test]
fn melt_converts_like_the_cast_of_the_language() {
    let samples: Vec<i64> = vec![
        i64::MIN,
        i64::MIN + 1,
        -4294967297,
        -4294967296,
        -2147483649,
        -2147483648,
        -65537,
        -65536,
        -32769,
        -32768,
        -257,
        -256,
        -129,
        -128,
        -1,
        0,
        1,
        127,
        128,
        255,
        256,
        32767,
        32768,
        65535,
        65536,
        2147483647,
        2147483648,
        4294967295,
        4294967296,
        i64::MAX - 1,
        i64::MAX,
    ];
    let mut df = DataFrame::new();
    df.add_col("x".to_owned(), Array::Int64(ArrayData::from_vec(samples.clone())));
    let column = |to: DType| -> Array {
        let long = melt(&df, &["x"], &[("x", DType::Int64)], to, "var", "value").unwrap();
        long.get_col("value").unwrap().clone()
    };
    let expect_i8: Vec<i8> = samples.iter().map(|x| *x as i8).collect();
    assert_eq!(all(DataTypeIterator::<i8>::values(&column(DType::Int8)).unwrap()), expect_i8);
    let expect_i16: Vec<i16> = samples.iter().map(|x| *x as i16).collect();
    assert_eq!(all(DataTypeIterator::<i16>::values(&column(DType::Int16)).unwrap()), expect_i16);
    let expect_i32: Vec<i32> = samples.iter().map(|x| *x as i32).collect();
    assert_eq!(all(DataTypeIterator::<i32>::values(&column(DType::Int32)).unwrap()), expect_i32);
    assert_eq!(all(DataTypeIterator::<i64>::values(&column(DType::Int64)).unwrap()), samples);
    let expect_u8: Vec<u8> = samples.iter().map(|x| *x as u8).collect();
    assert_eq!(all(DataTypeIterator::<u8>::values(&column(DType::UInt8)).unwrap()), expect_u8);
    let expect_u16: Vec<u16> = samples.iter().map(|x| *x as u16).collect();
    assert_eq!(all(DataTypeIterator::<u16>::values(&column(DType::UInt16)).unwrap()), expect_u16);
    let expect_u32: Vec<u32> = samples.iter().map(|x| *x as u32).collect();
    assert_eq!(all(DataTypeIterator::<u32>::values(&column(DType::UInt32)).unwrap()), expect_u32);
    let expect_u64: Vec<u64> = samples.iter().map(|x| *x as u64).collect();
    assert_eq!(all(DataTypeIterator::<u64>::values(&column(DType::UInt64)).unwrap()), expect_u64);

    let unsigned: Vec<u64> = vec![0, 1, 255, 256, 1 << 31, 1 << 32, 1 << 63, u64::MAX];
    let mut df = DataFrame::new();
    df.add_col("x".to_owned(), Array::UInt64(ArrayData::from_vec(unsigned.clone())));
    let long = melt(&df, &["x"], &[("x", DType::UInt64)], DType::Int32, "var", "value").unwrap();
    let expect: Vec<i32> = unsigned.iter().map(|x| *x as i32).collect();
    assert_eq!(
        all(DataTypeIterator::<i32>::values(long.get_col("value").unwrap()).unwrap()),
        expect
    );
    let long = melt(&df, &["x"], &[("x", DType::UInt64)], DType::Int64, "var", "value").unwrap();
    let expect: Vec<i64> = unsigned.iter().map(|x| *x as i64).collect();
    assert_eq!(
        all(DataTypeIterator::<i64>::values(long.get_col("value").unwrap()).unwrap()),
        expect
    );
}
