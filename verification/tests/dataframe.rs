use indexmap::IndexMap;
use llamas2::array::Array;
use llamas2::array_data::ArrayData;
use llamas2::dataframe::DataFrame;
use llamas2::datatype::DataType;
use llamas2::dtype::DType;
use llamas2::error::Error;
use llamas2::iter::DataTypeIterator;
use llamas2::melt::melt;

fn i8s(a: &Array) -> Vec<i8> {
    let mut it = DataTypeIterator::<i8>::values(a).unwrap();
    let mut out = vec![];
    while let Some(Some(x)) = it.next() {
        out.push(*x);
    }
    out
}

fn u8s(a: &Array) -> Vec<u8> {
    let mut it = DataTypeIterator::<u8>::values(a).unwrap();
    let mut out = vec![];
    while let Some(Some(x)) = it.next() {
        out.push(*x);
    }
    out
}

fn strings(a: &Array) -> Vec<String> {
    let mut it = DataTypeIterator::<String>::values(a).unwrap();
    let mut out = vec![];
    while let Some(Some(x)) = it.next() {
        out.push(x.clone());
    }
    out
}

fn two_columns() -> DataFrame {
    let mut columns = IndexMap::new();
    columns.insert(
        "id".to_owned(),
        Array::Int8(ArrayData::from_vec(vec![1, 2, 3, 4, 5])),
    );
    columns.insert(
        "population".to_owned(),
        Array::Int8(ArrayData::from_vec(vec![42, 22, 63, 34, 53])),
    );
    DataFrame { columns }
}

fn test_fn(x: &mut i8) {
    *x = x.pow(2);
}

fn test_fn1(x: &i8) -> i8 {
    x.pow(2)
}

fn test_fn2(x: &u8) -> u8 {
    x.pow(2)
}

fn test_fn_bad1(x: &u8) -> u8 {
    x.pow(2)
}

fn test_fn_bad2(x: &i8) -> i8 {
    x.pow(2)
}

#[test]
fn it_works() {
    assert_eq!(2 + 2, 4);
}

#[test]
fn lib_it_works() {
    assert_eq!(2 + 2, 4);
}

#[test]
fn test_dataframe_basic() {
    let df = two_columns();
    println!("{:?}", df);
    assert_eq!(df.columns.len(), 2);
    assert_eq!(i8s(df.get_col("id").unwrap()), vec![1, 2, 3, 4, 5]);
    assert_eq!(
        i8s(df.get_col("population").unwrap()),
        vec![42, 22, 63, 34, 53]
    );
}

#[test]
fn test_dataframe_add_col() {
    let mut df = two_columns();
    println!("{:?}", df);
    let new_col = df.columns[&"population".to_owned()]
        .apply(|&x: &i8| x - 2)
        .unwrap();

    df.add_col("new_col".to_owned(), new_col);
    println!("{:?}", df);
    assert_eq!(df.columns.len(), 3);
    assert_eq!(
        i8s(df.get_col("new_col").unwrap()),
        vec![40, 20, 61, 32, 51]
    );
    assert_eq!(
        i8s(df.get_col("population").unwrap()),
        vec![42, 22, 63, 34, 53]
    );
    let names: Vec<&String> = df.columns.keys().collect();
    assert_eq!(names, vec!["id", "population", "new_col"]);
}

#[test]
fn test_array_apply_inplace() {
    let mut array = Array::Int8(ArrayData::from_vec(vec![1, 2, 3]));
    array.apply_inplace(|x: &mut i8| *x = *x * 2).unwrap();
    println!("{:?}", array);
    assert_eq!(i8s(&array), vec![2, 4, 6]);
    array.apply_inplace(test_fn).unwrap();
    println!("{:?}", array);
    assert_eq!(i8s(&array), vec![4, 16, 36]);
}

#[test]
fn test_array_apply() {
    let array = Array::Int8(ArrayData::from_vec(vec![1, 2, 3]));
    let array1 = array.apply(|&x: &i8| x * 2).unwrap();
    println!("{:?}", array1);
    assert_eq!(i8s(&array1), vec![2, 4, 6]);

    let array2 = array.apply(test_fn1).unwrap();
    println!("{:?}", array2);
    assert_eq!(i8s(&array2), vec![1, 4, 9]);
    assert_eq!(i8s(&array), vec![1, 2, 3]);

    let array = Array::UInt8(ArrayData::from_vec(vec![1, 2, 3]));
    let array1 = array.apply(|&x: &u8| x * 2);
    println!("{:?}", array1);
    assert_eq!(u8s(&array1.unwrap()), vec![2, 4, 6]);

    let array2 = array.apply(test_fn2).unwrap();
    println!("{:?}", array2);
    assert_eq!(u8s(&array2), vec![1, 4, 9]);
}

#[test]
#[should_panic]
fn test_array_apply_wrong_type_i8() {
    let array = Array::Int8(ArrayData::from_vec(vec![1, 2, 3]));

    array.apply(test_fn_bad1).unwrap();
}

#[test]
#[should_panic]
fn test_array_apply_wrong_type_u8() {
    let array = Array::UInt8(ArrayData::from_vec(vec![1, 2, 3]));
    array.apply(test_fn_bad2).unwrap();
}

#[test]
fn test_melt_basic() {
    let mut columns = IndexMap::new();
    columns.insert(
        "id".to_owned(),
        Array::Int8(ArrayData::from_vec(vec![1, 2, 3, 4, 5])),
    );
    columns.insert(
        "id2".to_owned(),
        Array::Int8(ArrayData::from_vec(vec![6, 7, 8, 9, 15])),
    );
    columns.insert(
        "A".to_owned(),
        Array::Int8(ArrayData::from_vec(vec![42, 22, 63, 34, 53])),
    );
    columns.insert(
        "B".to_owned(),
        Array::Int8(ArrayData::from_vec(vec![41, 21, 61, 31, 51])),
    );
    let df = DataFrame { columns };

    let df = melt(
        &df,
        &["id", "id2"],
        &[("A", DType::Int8), ("B", DType::Int8)],
        DType::UInt8,
        "var",
        "value",
    )
    .unwrap();
    println!("{:?}", df);

    let names: Vec<&String> = df.columns.keys().collect();
    assert_eq!(names, vec!["id", "id2", "var", "value"]);
    assert_eq!(
        i8s(df.get_col("id").unwrap()),
        vec![1, 1, 2, 2, 3, 3, 4, 4, 5, 5]
    );
    assert_eq!(
        i8s(df.get_col("id2").unwrap()),
        vec![6, 6, 7, 7, 8, 8, 9, 9, 15, 15]
    );
    assert_eq!(
        strings(df.get_col("var").unwrap()),
        vec!["A", "B", "A", "B", "A", "B", "A", "B", "A", "B"]
    );
    assert_eq!(df.get_col("value").unwrap().dtype(), "UInt8");
    assert_eq!(
        u8s(df.get_col("value").unwrap()),
        vec![42, 41, 22, 21, 63, 61, 34, 31, 53, 51]
    );
}

#[test]
fn test_get() {
    let array = Array::Int8(ArrayData::from_vec(vec![1, 2, 3]));
    println!("{:?}", array);
    let x: Result<Option<Option<&i8>>, Error> = array.get(0);
    println!("{:?}", x);
    assert_eq!(x, Ok(Some(Some(&1))));
}
