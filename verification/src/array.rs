use crate::array_data::{lemma_repeat_each_map, repeat_each, ArrayData};
use crate::dtype::DType;
use crate::error::{fails_with, Error, ErrorView};
use vstd::prelude::*;

verus! {

/// An element of a `Float32` column: the IEEE 754 bit pattern of the number.
#[derive(Clone, Copy, Debug, PartialEq, Eq, Structural)]
pub struct F32Bits {
    pub bits: u32,
}

/// An element of a `Float64` column: the IEEE 754 bit pattern of the number.
#[derive(Clone, Copy, Debug, PartialEq, Eq, Structural)]
pub struct F64Bits {
    pub bits: u64,
}

/// One element of a column, whatever its type.
pub enum Scalar {
    Int(int),
    Bits32(u32),
    Bits64(u64),
    Text(Seq<char>),
}

/// A column as a tag and its elements in order.
pub struct ColumnView {
    pub dtype: DType,
    pub cells: Seq<Scalar>,
}

/// A column of one of the eleven element types. The variant is the tag; it
/// never changes while the column lives.
#[derive(Debug, Clone)]
pub enum Array {
    Int8(ArrayData<i8>),
    Int16(ArrayData<i16>),
    Int32(ArrayData<i32>),
    Int64(ArrayData<i64>),
    UInt8(ArrayData<u8>),
    UInt16(ArrayData<u16>),
    UInt32(ArrayData<u32>),
    UInt64(ArrayData<u64>),
    Float32(ArrayData<F32Bits>),
    Float64(ArrayData<F64Bits>),
    Str(ArrayData<String>),
}

impl View for Array {
    type V = ColumnView;

    open spec fn view(&self) -> ColumnView {
        ColumnView { dtype: self.tag(), cells: self.cells() }
    }
}

impl Array {
    /// The tag of the variant.
    pub open spec fn tag(&self) -> DType {
        match self {
            Array::Int8(_) => DType::Int8,
            Array::Int16(_) => DType::Int16,
            Array::Int32(_) => DType::Int32,
            Array::Int64(_) => DType::Int64,
            Array::UInt8(_) => DType::UInt8,
            Array::UInt16(_) => DType::UInt16,
            Array::UInt32(_) => DType::UInt32,
            Array::UInt64(_) => DType::UInt64,
            Array::Float32(_) => DType::Float32,
            Array::Float64(_) => DType::Float64,
            Array::Str(_) => DType::Str,
        }
    }

    /// The elements in order.
    pub open spec fn cells(&self) -> Seq<Scalar> {
        match self {
            Array::Int8(d) => d@.map_values(|x: i8| Scalar::Int(x as int)),
            Array::Int16(d) => d@.map_values(|x: i16| Scalar::Int(x as int)),
            Array::Int32(d) => d@.map_values(|x: i32| Scalar::Int(x as int)),
            Array::Int64(d) => d@.map_values(|x: i64| Scalar::Int(x as int)),
            Array::UInt8(d) => d@.map_values(|x: u8| Scalar::Int(x as int)),
            Array::UInt16(d) => d@.map_values(|x: u16| Scalar::Int(x as int)),
            Array::UInt32(d) => d@.map_values(|x: u32| Scalar::Int(x as int)),
            Array::UInt64(d) => d@.map_values(|x: u64| Scalar::Int(x as int)),
            Array::Float32(d) => d@.map_values(|x: F32Bits| Scalar::Bits32(x.bits)),
            Array::Float64(d) => d@.map_values(|x: F64Bits| Scalar::Bits64(x.bits)),
            Array::Str(d) => d@.map_values(|x: String| Scalar::Text(x@)),
        }
    }

    /// An empty column of the element type named `dtype`.
    pub fn new(dtype: &str) -> (res: Result<Self, Error>)
        ensures
            match DType::spec_from_name(dtype@) {
                Some(t) => res matches Ok(a) && a@ == (ColumnView { dtype: t, cells: Seq::empty() }),
                None => fails_with(res, ErrorView::UnknownType { dtype: dtype@ }),
            },
    {
        match DType::from_name(dtype) {
            Some(t) => Ok(Array::empty(t)),
            None => Err(Error::UnknownType { dtype: dtype.to_owned() }),
        }
    }

    /// An empty column with the tag `dtype`.
    pub fn empty(dtype: DType) -> (res: Self)
        ensures
            res@ == (ColumnView { dtype, cells: Seq::empty() }),
    {
        let res = match dtype {
            DType::Int8 => Array::Int8(ArrayData::from_vec(Vec::new())),
            DType::Int16 => Array::Int16(ArrayData::from_vec(Vec::new())),
            DType::Int32 => Array::Int32(ArrayData::from_vec(Vec::new())),
            DType::Int64 => Array::Int64(ArrayData::from_vec(Vec::new())),
            DType::UInt8 => Array::UInt8(ArrayData::from_vec(Vec::new())),
            DType::UInt16 => Array::UInt16(ArrayData::from_vec(Vec::new())),
            DType::UInt32 => Array::UInt32(ArrayData::from_vec(Vec::new())),
            DType::UInt64 => Array::UInt64(ArrayData::from_vec(Vec::new())),
            DType::Float32 => Array::Float32(ArrayData::from_vec(Vec::new())),
            DType::Float64 => Array::Float64(ArrayData::from_vec(Vec::new())),
            DType::Str => Array::Str(ArrayData::from_vec(Vec::new())),
        };
        assert(res@.cells =~= Seq::empty());
        res
    }

    /// The tag of the column.
    pub fn dtype_tag(&self) -> (res: DType)
        ensures
            res == self@.dtype,
    {
        match self {
            Array::Int8(_) => DType::Int8,
            Array::Int16(_) => DType::Int16,
            Array::Int32(_) => DType::Int32,
            Array::Int64(_) => DType::Int64,
            Array::UInt8(_) => DType::UInt8,
            Array::UInt16(_) => DType::UInt16,
            Array::UInt32(_) => DType::UInt32,
            Array::UInt64(_) => DType::UInt64,
            Array::Float32(_) => DType::Float32,
            Array::Float64(_) => DType::Float64,
            Array::Str(_) => DType::Str,
        }
    }

    /// The name of the column's tag.
    pub fn dtype(&self) -> (res: String)
        ensures
            res@ == self@.dtype.spec_name(),
    {
        self.dtype_tag().name().to_owned()
    }

    /// The name of the Rust type of the column's elements.
    pub fn primitive_dtype(&self) -> (res: String)
        ensures
            res@ == self@.dtype.spec_primitive_name(),
    {
        self.dtype_tag().primitive_name().to_owned()
    }

    /// A column of the same tag with every element `multiple` times in a row.
    pub fn multiply_row(&self, multiple: usize) -> (res: Self)
        ensures
            res@.dtype == self@.dtype,
            res@.cells == repeat_each(self@.cells, multiple as nat),
    {
        let n: usize = multiple;
        match self {
            Array::Int8(d) => {
                let r = d.multiply_row(n);
                proof {
                    lemma_repeat_each_map(d@, n as nat, |x: i8| Scalar::Int(x as int));
                }
                Array::Int8(r)
            },
            Array::Int16(d) => {
                let r = d.multiply_row(n);
                proof {
                    lemma_repeat_each_map(d@, n as nat, |x: i16| Scalar::Int(x as int));
                }
                Array::Int16(r)
            },
            Array::Int32(d) => {
                let r = d.multiply_row(n);
                proof {
                    lemma_repeat_each_map(d@, n as nat, |x: i32| Scalar::Int(x as int));
                }
                Array::Int32(r)
            },
            Array::Int64(d) => {
                let r = d.multiply_row(n);
                proof {
                    lemma_repeat_each_map(d@, n as nat, |x: i64| Scalar::Int(x as int));
                }
                Array::Int64(r)
            },
            Array::UInt8(d) => {
                let r = d.multiply_row(n);
                proof {
                    lemma_repeat_each_map(d@, n as nat, |x: u8| Scalar::Int(x as int));
                }
                Array::UInt8(r)
            },
            Array::UInt16(d) => {
                let r = d.multiply_row(n);
                proof {
                    lemma_repeat_each_map(d@, n as nat, |x: u16| Scalar::Int(x as int));
                }
                Array::UInt16(r)
            },
            Array::UInt32(d) => {
                let r = d.multiply_row(n);
                proof {
                    lemma_repeat_each_map(d@, n as nat, |x: u32| Scalar::Int(x as int));
                }
                Array::UInt32(r)
            },
            Array::UInt64(d) => {
                let r = d.multiply_row(n);
                proof {
                    lemma_repeat_each_map(d@, n as nat, |x: u64| Scalar::Int(x as int));
                }
                Array::UInt64(r)
            },
            Array::Float32(d) => {
                let r = d.multiply_row(n);
                proof {
                    lemma_repeat_each_map(d@, n as nat, |x: F32Bits| Scalar::Bits32(x.bits));
                }
                Array::Float32(r)
            },
            Array::Float64(d) => {
                let r = d.multiply_row(n);
                proof {
                    lemma_repeat_each_map(d@, n as nat, |x: F64Bits| Scalar::Bits64(x.bits));
                }
                Array::Float64(r)
            },
            Array::Str(d) => {
                let r = d.multiply_row(n);
                proof {
                    lemma_repeat_each_map(d@, n as nat, |x: String| Scalar::Text(x@));
                }
                Array::Str(r)
            },
        }
    }

    /// The number of elements.
    pub fn len(&self) -> (res: usize)
        ensures
            res == self@.cells.len(),
    {
        match self {
            Array::Int8(d) => d.len(),
            Array::Int16(d) => d.len(),
            Array::Int32(d) => d.len(),
            Array::Int64(d) => d.len(),
            Array::UInt8(d) => d.len(),
            Array::UInt16(d) => d.len(),
            Array::UInt32(d) => d.len(),
            Array::UInt64(d) => d.len(),
            Array::Float32(d) => d.len(),
            Array::Float64(d) => d.len(),
            Array::Str(d) => d.len(),
        }
    }
}

} // verus!
