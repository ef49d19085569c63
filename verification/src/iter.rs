use crate::array::{Array, F32Bits, F64Bits};
use crate::array_data::ArrayData;
use crate::dtype::DType;
use crate::error::{fails_with, Error, ErrorView};
use vstd::prelude::*;

verus! {

/// A walk over the elements of one sequence, from the first on.
pub struct ArrayIterator<'a, T: 'a> {
    values: &'a ArrayData<T>,
    index: usize,
}

impl<'a, T> ArrayIterator<'a, T> {
    /// The elements that the walk is over.
    pub closed spec fn source(&self) -> Seq<T> {
        self.values@
    }

    /// How many elements the walk has handed out.
    pub closed spec fn position(&self) -> nat {
        self.index as nat
    }

    /// A walk that starts at the first element of `values`.
    pub fn new(values: &'a ArrayData<T>) -> (res: Self)
        ensures
            res.source() == values@,
            res.position() == 0,
    {
        ArrayIterator { values: values, index: 0 }
    }
}

impl<'a, T: 'a + Clone + Send + Sync> ArrayIterator<'a, T> {
    /// The next element as `Some(Some(..))`, or `None` when all were handed
    /// out; the inner option is kept for a null marker. After the end every
    /// call returns `None`.
    pub fn next(&mut self) -> (res: Option<Option<&'a T>>)
        ensures
            final(self).source() == old(self).source(),
            old(self).position() < old(self).source().len() ==> {
                &&& res == Some(Some(&old(self).source()[old(self).position() as int]))
                &&& final(self).position() == old(self).position() + 1
            },
            old(self).position() >= old(self).source().len() ==> {
                &&& res is None
                &&& final(self).position() == old(self).position()
            },
    {
        if self.index < self.values.len() {
            let res = self.values.get(self.index);
            self.index += 1;
            res
        } else {
            None
        }
    }
}

/// A walk over a column by callers that name the type `T` of its elements.
pub trait DataTypeIterator<'a, T>: Sized {
    /// The tag of the column.
    spec fn stored(self) -> DType;

    /// The elements of the column, where they are of type `T`.
    spec fn typed(self) -> Option<Seq<T>>;

    /// The walk from the first element on, where the column holds elements of
    /// type `T`; `TypeMismatch` where it holds another type.
    fn values(self) -> (res: Result<ArrayIterator<'a, T>, Error>)
        ensures
            match self.typed() {
                Some(s) => res matches Ok(it) && it.source() == s && it.position() == 0,
                None => fails_with(res, ErrorView::TypeMismatch { actual: self.stored() }),
            },
    ;
}

impl<'a> DataTypeIterator<'a, i8> for &'a Array {
    open spec fn stored(self) -> DType {
        self.tag()
    }

    open spec fn typed(self) -> Option<Seq<i8>> {
        match self {
            Array::Int8(d) => Some(d@),
            _ => None,
        }
    }

    fn values(self) -> Result<ArrayIterator<'a, i8>, Error> {
        match self {
            Array::Int8(d) => Ok(ArrayIterator::new(d)),
            _ => Err(Error::TypeMismatch { actual: self.dtype_tag() }),
        }
    }
}

impl<'a> DataTypeIterator<'a, i16> for &'a Array {
    open spec fn stored(self) -> DType {
        self.tag()
    }

    open spec fn typed(self) -> Option<Seq<i16>> {
        match self {
            Array::Int16(d) => Some(d@),
            _ => None,
        }
    }

    fn values(self) -> Result<ArrayIterator<'a, i16>, Error> {
        match self {
            Array::Int16(d) => Ok(ArrayIterator::new(d)),
            _ => Err(Error::TypeMismatch { actual: self.dtype_tag() }),
        }
    }
}

impl<'a> DataTypeIterator<'a, i32> for &'a Array {
    open spec fn stored(self) -> DType {
        self.tag()
    }

    open spec fn typed(self) -> Option<Seq<i32>> {
        match self {
            Array::Int32(d) => Some(d@),
            _ => None,
        }
    }

    fn values(self) -> Result<ArrayIterator<'a, i32>, Error> {
        match self {
            Array::Int32(d) => Ok(ArrayIterator::new(d)),
            _ => Err(Error::TypeMismatch { actual: self.dtype_tag() }),
        }
    }
}

impl<'a> DataTypeIterator<'a, i64> for &'a Array {
    open spec fn stored(self) -> DType {
        self.tag()
    }

    open spec fn typed(self) -> Option<Seq<i64>> {
        match self {
            Array::Int64(d) => Some(d@),
            _ => None,
        }
    }

    fn values(self) -> Result<ArrayIterator<'a, i64>, Error> {
        match self {
            Array::Int64(d) => Ok(ArrayIterator::new(d)),
            _ => Err(Error::TypeMismatch { actual: self.dtype_tag() }),
        }
    }
}

impl<'a> DataTypeIterator<'a, u8> for &'a Array {
    open spec fn stored(self) -> DType {
        self.tag()
    }

    open spec fn typed(self) -> Option<Seq<u8>> {
        match self {
            Array::UInt8(d) => Some(d@),
            _ => None,
        }
    }

    fn values(self) -> Result<ArrayIterator<'a, u8>, Error> {
        match self {
            Array::UInt8(d) => Ok(ArrayIterator::new(d)),
            _ => Err(Error::TypeMismatch { actual: self.dtype_tag() }),
        }
    }
}

impl<'a> DataTypeIterator<'a, u16> for &'a Array {
    open spec fn stored(self) -> DType {
        self.tag()
    }

    open spec fn typed(self) -> Option<Seq<u16>> {
        match self {
            Array::UInt16(d) => Some(d@),
            _ => None,
        }
    }

    fn values(self) -> Result<ArrayIterator<'a, u16>, Error> {
        match self {
            Array::UInt16(d) => Ok(ArrayIterator::new(d)),
            _ => Err(Error::TypeMismatch { actual: self.dtype_tag() }),
        }
    }
}

impl<'a> DataTypeIterator<'a, u32> for &'a Array {
    open spec fn stored(self) -> DType {
        self.tag()
    }

    open spec fn typed(self) -> Option<Seq<u32>> {
        match self {
            Array::UInt32(d) => Some(d@),
            _ => None,
        }
    }

    fn values(self) -> Result<ArrayIterator<'a, u32>, Error> {
        match self {
            Array::UInt32(d) => Ok(ArrayIterator::new(d)),
            _ => Err(Error::TypeMismatch { actual: self.dtype_tag() }),
        }
    }
}

impl<'a> DataTypeIterator<'a, u64> for &'a Array {
    open spec fn stored(self) -> DType {
        self.tag()
    }

    open spec fn typed(self) -> Option<Seq<u64>> {
        match self {
            Array::UInt64(d) => Some(d@),
            _ => None,
        }
    }

    fn values(self) -> Result<ArrayIterator<'a, u64>, Error> {
        match self {
            Array::UInt64(d) => Ok(ArrayIterator::new(d)),
            _ => Err(Error::TypeMismatch { actual: self.dtype_tag() }),
        }
    }
}

impl<'a> DataTypeIterator<'a, F32Bits> for &'a Array {
    open spec fn stored(self) -> DType {
        self.tag()
    }

    open spec fn typed(self) -> Option<Seq<F32Bits>> {
        match self {
            Array::Float32(d) => Some(d@),
            _ => None,
        }
    }

    fn values(self) -> Result<ArrayIterator<'a, F32Bits>, Error> {
        match self {
            Array::Float32(d) => Ok(ArrayIterator::new(d)),
            _ => Err(Error::TypeMismatch { actual: self.dtype_tag() }),
        }
    }
}

impl<'a> DataTypeIterator<'a, F64Bits> for &'a Array {
    open spec fn stored(self) -> DType {
        self.tag()
    }

    open spec fn typed(self) -> Option<Seq<F64Bits>> {
        match self {
            Array::Float64(d) => Some(d@),
            _ => None,
        }
    }

    fn values(self) -> Result<ArrayIterator<'a, F64Bits>, Error> {
        match self {
            Array::Float64(d) => Ok(ArrayIterator::new(d)),
            _ => Err(Error::TypeMismatch { actual: self.dtype_tag() }),
        }
    }
}

impl<'a> DataTypeIterator<'a, String> for &'a Array {
    open spec fn stored(self) -> DType {
        self.tag()
    }

    open spec fn typed(self) -> Option<Seq<String>> {
        match self {
            Array::Str(d) => Some(d@),
            _ => None,
        }
    }

    fn values(self) -> Result<ArrayIterator<'a, String>, Error> {
        match self {
            Array::Str(d) => Ok(ArrayIterator::new(d)),
            _ => Err(Error::TypeMismatch { actual: self.dtype_tag() }),
        }
    }
}

} // verus!
