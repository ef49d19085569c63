use crate::array::{Array, F32Bits, F64Bits};
use crate::array_data::{accepts_each, accepts_each_mut, has_index, mapped};
use crate::dtype::DType;
use crate::error::{fails_with, Error, ErrorView};
use vstd::prelude::*;

verus! {

/// The operations on a column that name the type `T` of its elements. Each
/// works where the column holds elements of that type, and fails with
/// `TypeMismatch` and changes nothing where it holds another.
pub trait DataType<T>: Sized {
    /// The tag of the columns whose elements are of type `T`.
    spec fn witness() -> DType;

    /// The elements of a column whose tag is `witness()`.
    spec fn typed(a: &Array) -> Seq<T>;

    /// The column that `self` is.
    spec fn column(&self) -> Array;

    /// Lets `f` rewrite every element in place.
    fn apply_inplace<F>(&mut self, f: F) -> (res: Result<(), Error>) where
        F: Fn(&mut T) + Sync + Send,

        requires
            old(self).column().tag() == Self::witness() ==> accepts_each_mut(
                f,
                Self::typed(&old(self).column()),
            ),
        ensures
            final(self).column().tag() == old(self).column().tag(),
            old(self).column().tag() == Self::witness() ==> {
                let before = Self::typed(&old(self).column());
                let after = Self::typed(&final(self).column());
                &&& res is Ok
                &&& after.len() == before.len()
                &&& forall|i: int|
                    #![trigger after[i]]
                    #![trigger has_index(before, i)]
                    has_index(before, i) ==> exists|r: &mut T|
                        #![trigger call_ensures(f, (r,), ())]
                        *r == before[i] && *final(r) == after[i] && call_ensures(f, (r,), ())
                &&& (forall|r: &mut T| call_ensures(f, (r,), ()) ==> *final(r) == *r) ==> after
                    == before
            },
            old(self).column().tag() != Self::witness() ==> {
                &&& fails_with(res, ErrorView::TypeMismatch { actual: old(self).column().tag() })
                &&& *final(self) == *old(self)
            },
    ;

    /// A new column of the same tag that holds `f` of every element.
    fn apply<F>(&self, f: F) -> (res: Result<Array, Error>) where F: Fn(&T) -> T + Sync + Send
        requires
            self.column().tag() == Self::witness() ==> accepts_each(f, Self::typed(&self.column())),
        ensures
            self.column().tag() == Self::witness() ==> {
                &&& res matches Ok(a)
                &&& a.tag() == Self::witness()
                &&& mapped(f, Self::typed(&self.column()), Self::typed(&a))
            },
            self.column().tag() != Self::witness() ==> fails_with(
                res,
                ErrorView::TypeMismatch { actual: self.column().tag() },
            ),
    ;

    /// The element at `index`: `Ok(None)` past the end, else
    /// `Ok(Some(Some(..)))`; the inner option is kept for a null marker.
    fn get(&self, index: usize) -> (res: Result<Option<Option<&T>>, Error>)
        ensures
            self.column().tag() == Self::witness() ==> res == Ok::<Option<Option<&T>>, Error>(
                if index < Self::typed(&self.column()).len() {
                    Some(Some(&Self::typed(&self.column())[index as int]))
                } else {
                    None
                },
            ),
            self.column().tag() != Self::witness() ==> fails_with(
                res,
                ErrorView::TypeMismatch { actual: self.column().tag() },
            ),
    ;

    /// Appends `item`.
    fn push(&mut self, item: T) -> (res: Result<(), Error>)
        ensures
            final(self).column().tag() == old(self).column().tag(),
            old(self).column().tag() == Self::witness() ==> {
                &&& res is Ok
                &&& Self::typed(&final(self).column()) == Self::typed(&old(self).column()).push(
                    item,
                )
            },
            old(self).column().tag() != Self::witness() ==> {
                &&& fails_with(res, ErrorView::TypeMismatch { actual: old(self).column().tag() })
                &&& *final(self) == *old(self)
            },
    ;
}

impl DataType<i8> for Array {
    open spec fn witness() -> DType {
        DType::Int8
    }

    open spec fn typed(a: &Array) -> Seq<i8> {
        match a {
            Array::Int8(d) => d@,
            _ => Seq::empty(),
        }
    }

    open spec fn column(&self) -> Array {
        *self
    }

    fn apply_inplace<F>(&mut self, f: F) -> (res: Result<(), Error>) where
        F: Fn(&mut i8) + Sync + Send,
    {
        match self {
            Array::Int8(d) => {
                d.apply_inplace(f);
                Ok(())
            },
            _ => Err(Error::TypeMismatch { actual: self.dtype_tag() }),
        }
    }

    fn apply<F>(&self, f: F) -> (res: Result<Array, Error>) where F: Fn(&i8) -> i8 + Sync + Send {
        match self {
            Array::Int8(d) => Ok(Array::Int8(d.apply(f))),
            _ => Err(Error::TypeMismatch { actual: self.dtype_tag() }),
        }
    }

    fn get(&self, index: usize) -> (res: Result<Option<Option<&i8>>, Error>) {
        match self {
            Array::Int8(d) => Ok(d.get(index)),
            _ => Err(Error::TypeMismatch { actual: self.dtype_tag() }),
        }
    }

    fn push(&mut self, item: i8) -> (res: Result<(), Error>) {
        match self {
            Array::Int8(d) => {
                d.push(item);
                Ok(())
            },
            _ => Err(Error::TypeMismatch { actual: self.dtype_tag() }),
        }
    }
}

impl DataType<i16> for Array {
    open spec fn witness() -> DType {
        DType::Int16
    }

    open spec fn typed(a: &Array) -> Seq<i16> {
        match a {
            Array::Int16(d) => d@,
            _ => Seq::empty(),
        }
    }

    open spec fn column(&self) -> Array {
        *self
    }

    fn apply_inplace<F>(&mut self, f: F) -> (res: Result<(), Error>) where
        F: Fn(&mut i16) + Sync + Send,
    {
        match self {
            Array::Int16(d) => {
                d.apply_inplace(f);
                Ok(())
            },
            _ => Err(Error::TypeMismatch { actual: self.dtype_tag() }),
        }
    }

    fn apply<F>(&self, f: F) -> (res: Result<Array, Error>) where F: Fn(&i16) -> i16 + Sync + Send {
        match self {
            Array::Int16(d) => Ok(Array::Int16(d.apply(f))),
            _ => Err(Error::TypeMismatch { actual: self.dtype_tag() }),
        }
    }

    fn get(&self, index: usize) -> (res: Result<Option<Option<&i16>>, Error>) {
        match self {
            Array::Int16(d) => Ok(d.get(index)),
            _ => Err(Error::TypeMismatch { actual: self.dtype_tag() }),
        }
    }

    fn push(&mut self, item: i16) -> (res: Result<(), Error>) {
        match self {
            Array::Int16(d) => {
                d.push(item);
                Ok(())
            },
            _ => Err(Error::TypeMismatch { actual: self.dtype_tag() }),
        }
    }
}

impl DataType<i32> for Array {
    open spec fn witness() -> DType {
        DType::Int32
    }

    open spec fn typed(a: &Array) -> Seq<i32> {
        match a {
            Array::Int32(d) => d@,
            _ => Seq::empty(),
        }
    }

    open spec fn column(&self) -> Array {
        *self
    }

    fn apply_inplace<F>(&mut self, f: F) -> (res: Result<(), Error>) where
        F: Fn(&mut i32) + Sync + Send,
    {
        match self {
            Array::Int32(d) => {
                d.apply_inplace(f);
                Ok(())
            },
            _ => Err(Error::TypeMismatch { actual: self.dtype_tag() }),
        }
    }

    fn apply<F>(&self, f: F) -> (res: Result<Array, Error>) where F: Fn(&i32) -> i32 + Sync + Send {
        match self {
            Array::Int32(d) => Ok(Array::Int32(d.apply(f))),
            _ => Err(Error::TypeMismatch { actual: self.dtype_tag() }),
        }
    }

    fn get(&self, index: usize) -> (res: Result<Option<Option<&i32>>, Error>) {
        match self {
            Array::Int32(d) => Ok(d.get(index)),
            _ => Err(Error::TypeMismatch { actual: self.dtype_tag() }),
        }
    }

    fn push(&mut self, item: i32) -> (res: Result<(), Error>) {
        match self {
            Array::Int32(d) => {
                d.push(item);
                Ok(())
            },
            _ => Err(Error::TypeMismatch { actual: self.dtype_tag() }),
        }
    }
}

impl DataType<i64> for Array {
    open spec fn witness() -> DType {
        DType::Int64
    }

    open spec fn typed(a: &Array) -> Seq<i64> {
        match a {
            Array::Int64(d) => d@,
            _ => Seq::empty(),
        }
    }

    open spec fn column(&self) -> Array {
        *self
    }

    fn apply_inplace<F>(&mut self, f: F) -> (res: Result<(), Error>) where
        F: Fn(&mut i64) + Sync + Send,
    {
        match self {
            Array::Int64(d) => {
                d.apply_inplace(f);
                Ok(())
            },
            _ => Err(Error::TypeMismatch { actual: self.dtype_tag() }),
        }
    }

    fn apply<F>(&self, f: F) -> (res: Result<Array, Error>) where F: Fn(&i64) -> i64 + Sync + Send {
        match self {
            Array::Int64(d) => Ok(Array::Int64(d.apply(f))),
            _ => Err(Error::TypeMismatch { actual: self.dtype_tag() }),
        }
    }

    fn get(&self, index: usize) -> (res: Result<Option<Option<&i64>>, Error>) {
        match self {
            Array::Int64(d) => Ok(d.get(index)),
            _ => Err(Error::TypeMismatch { actual: self.dtype_tag() }),
        }
    }

    fn push(&mut self, item: i64) -> (res: Result<(), Error>) {
        match self {
            Array::Int64(d) => {
                d.push(item);
                Ok(())
            },
            _ => Err(Error::TypeMismatch { actual: self.dtype_tag() }),
        }
    }
}

impl DataType<u8> for Array {
    open spec fn witness() -> DType {
        DType::UInt8
    }

    open spec fn typed(a: &Array) -> Seq<u8> {
        match a {
            Array::UInt8(d) => d@,
            _ => Seq::empty(),
        }
    }

    open spec fn column(&self) -> Array {
        *self
    }

    fn apply_inplace<F>(&mut self, f: F) -> (res: Result<(), Error>) where
        F: Fn(&mut u8) + Sync + Send,
    {
        match self {
            Array::UInt8(d) => {
                d.apply_inplace(f);
                Ok(())
            },
            _ => Err(Error::TypeMismatch { actual: self.dtype_tag() }),
        }
    }

    fn apply<F>(&self, f: F) -> (res: Result<Array, Error>) where F: Fn(&u8) -> u8 + Sync + Send {
        match self {
            Array::UInt8(d) => Ok(Array::UInt8(d.apply(f))),
            _ => Err(Error::TypeMismatch { actual: self.dtype_tag() }),
        }
    }

    fn get(&self, index: usize) -> (res: Result<Option<Option<&u8>>, Error>) {
        match self {
            Array::UInt8(d) => Ok(d.get(index)),
            _ => Err(Error::TypeMismatch { actual: self.dtype_tag() }),
        }
    }

    fn push(&mut self, item: u8) -> (res: Result<(), Error>) {
        match self {
            Array::UInt8(d) => {
                d.push(item);
                Ok(())
            },
            _ => Err(Error::TypeMismatch { actual: self.dtype_tag() }),
        }
    }
}

impl DataType<u16> for Array {
    open spec fn witness() -> DType {
        DType::UInt16
    }

    open spec fn typed(a: &Array) -> Seq<u16> {
        match a {
            Array::UInt16(d) => d@,
            _ => Seq::empty(),
        }
    }

    open spec fn column(&self) -> Array {
        *self
    }

    fn apply_inplace<F>(&mut self, f: F) -> (res: Result<(), Error>) where
        F: Fn(&mut u16) + Sync + Send,
    {
        match self {
            Array::UInt16(d) => {
                d.apply_inplace(f);
                Ok(())
            },
            _ => Err(Error::TypeMismatch { actual: self.dtype_tag() }),
        }
    }

    fn apply<F>(&self, f: F) -> (res: Result<Array, Error>) where F: Fn(&u16) -> u16 + Sync + Send {
        match self {
            Array::UInt16(d) => Ok(Array::UInt16(d.apply(f))),
            _ => Err(Error::TypeMismatch { actual: self.dtype_tag() }),
        }
    }

    fn get(&self, index: usize) -> (res: Result<Option<Option<&u16>>, Error>) {
        match self {
            Array::UInt16(d) => Ok(d.get(index)),
            _ => Err(Error::TypeMismatch { actual: self.dtype_tag() }),
        }
    }

    fn push(&mut self, item: u16) -> (res: Result<(), Error>) {
        match self {
            Array::UInt16(d) => {
                d.push(item);
                Ok(())
            },
            _ => Err(Error::TypeMismatch { actual: self.dtype_tag() }),
        }
    }
}

impl DataType<u32> for Array {
    open spec fn witness() -> DType {
        DType::UInt32
    }

    open spec fn typed(a: &Array) -> Seq<u32> {
        match a {
            Array::UInt32(d) => d@,
            _ => Seq::empty(),
        }
    }

    open spec fn column(&self) -> Array {
        *self
    }

    fn apply_inplace<F>(&mut self, f: F) -> (res: Result<(), Error>) where
        F: Fn(&mut u32) + Sync + Send,
    {
        match self {
            Array::UInt32(d) => {
                d.apply_inplace(f);
                Ok(())
            },
            _ => Err(Error::TypeMismatch { actual: self.dtype_tag() }),
        }
    }

    fn apply<F>(&self, f: F) -> (res: Result<Array, Error>) where F: Fn(&u32) -> u32 + Sync + Send {
        match self {
            Array::UInt32(d) => Ok(Array::UInt32(d.apply(f))),
            _ => Err(Error::TypeMismatch { actual: self.dtype_tag() }),
        }
    }

    fn get(&self, index: usize) -> (res: Result<Option<Option<&u32>>, Error>) {
        match self {
            Array::UInt32(d) => Ok(d.get(index)),
            _ => Err(Error::TypeMismatch { actual: self.dtype_tag() }),
        }
    }

    fn push(&mut self, item: u32) -> (res: Result<(), Error>) {
        match self {
            Array::UInt32(d) => {
                d.push(item);
                Ok(())
            },
            _ => Err(Error::TypeMismatch { actual: self.dtype_tag() }),
        }
    }
}

impl DataType<u64> for Array {
    open spec fn witness() -> DType {
        DType::UInt64
    }

    open spec fn typed(a: &Array) -> Seq<u64> {
        match a {
            Array::UInt64(d) => d@,
            _ => Seq::empty(),
        }
    }

    open spec fn column(&self) -> Array {
        *self
    }

    fn apply_inplace<F>(&mut self, f: F) -> (res: Result<(), Error>) where
        F: Fn(&mut u64) + Sync + Send,
    {
        match self {
            Array::UInt64(d) => {
                d.apply_inplace(f);
                Ok(())
            },
            _ => Err(Error::TypeMismatch { actual: self.dtype_tag() }),
        }
    }

    fn apply<F>(&self, f: F) -> (res: Result<Array, Error>) where F: Fn(&u64) -> u64 + Sync + Send {
        match self {
            Array::UInt64(d) => Ok(Array::UInt64(d.apply(f))),
            _ => Err(Error::TypeMismatch { actual: self.dtype_tag() }),
        }
    }

    fn get(&self, index: usize) -> (res: Result<Option<Option<&u64>>, Error>) {
        match self {
            Array::UInt64(d) => Ok(d.get(index)),
            _ => Err(Error::TypeMismatch { actual: self.dtype_tag() }),
        }
    }

    fn push(&mut self, item: u64) -> (res: Result<(), Error>) {
        match self {
            Array::UInt64(d) => {
                d.push(item);
                Ok(())
            },
            _ => Err(Error::TypeMismatch { actual: self.dtype_tag() }),
        }
    }
}

impl DataType<F32Bits> for Array {
    open spec fn witness() -> DType {
        DType::Float32
    }

    open spec fn typed(a: &Array) -> Seq<F32Bits> {
        match a {
            Array::Float32(d) => d@,
            _ => Seq::empty(),
        }
    }

    open spec fn column(&self) -> Array {
        *self
    }

    fn apply_inplace<F>(&mut self, f: F) -> (res: Result<(), Error>) where
        F: Fn(&mut F32Bits) + Sync + Send,
    {
        match self {
            Array::Float32(d) => {
                d.apply_inplace(f);
                Ok(())
            },
            _ => Err(Error::TypeMismatch { actual: self.dtype_tag() }),
        }
    }

    fn apply<F>(&self, f: F) -> (res: Result<Array, Error>) where F: Fn(&F32Bits) -> F32Bits + Sync + Send {
        match self {
            Array::Float32(d) => Ok(Array::Float32(d.apply(f))),
            _ => Err(Error::TypeMismatch { actual: self.dtype_tag() }),
        }
    }

    fn get(&self, index: usize) -> (res: Result<Option<Option<&F32Bits>>, Error>) {
        match self {
            Array::Float32(d) => Ok(d.get(index)),
            _ => Err(Error::TypeMismatch { actual: self.dtype_tag() }),
        }
    }

    fn push(&mut self, item: F32Bits) -> (res: Result<(), Error>) {
        match self {
            Array::Float32(d) => {
                d.push(item);
                Ok(())
            },
            _ => Err(Error::TypeMismatch { actual: self.dtype_tag() }),
        }
    }
}

impl DataType<F64Bits> for Array {
    open spec fn witness() -> DType {
        DType::Float64
    }

    open spec fn typed(a: &Array) -> Seq<F64Bits> {
        match a {
            Array::Float64(d) => d@,
            _ => Seq::empty(),
        }
    }

    open spec fn column(&self) -> Array {
        *self
    }

    fn apply_inplace<F>(&mut self, f: F) -> (res: Result<(), Error>) where
        F: Fn(&mut F64Bits) + Sync + Send,
    {
        match self {
            Array::Float64(d) => {
                d.apply_inplace(f);
                Ok(())
            },
            _ => Err(Error::TypeMismatch { actual: self.dtype_tag() }),
        }
    }

    fn apply<F>(&self, f: F) -> (res: Result<Array, Error>) where F: Fn(&F64Bits) -> F64Bits + Sync + Send {
        match self {
            Array::Float64(d) => Ok(Array::Float64(d.apply(f))),
            _ => Err(Error::TypeMismatch { actual: self.dtype_tag() }),
        }
    }

    fn get(&self, index: usize) -> (res: Result<Option<Option<&F64Bits>>, Error>) {
        match self {
            Array::Float64(d) => Ok(d.get(index)),
            _ => Err(Error::TypeMismatch { actual: self.dtype_tag() }),
        }
    }

    fn push(&mut self, item: F64Bits) -> (res: Result<(), Error>) {
        match self {
            Array::Float64(d) => {
                d.push(item);
                Ok(())
            },
            _ => Err(Error::TypeMismatch { actual: self.dtype_tag() }),
        }
    }
}

impl DataType<String> for Array {
    open spec fn witness() -> DType {
        DType::Str
    }

    open spec fn typed(a: &Array) -> Seq<String> {
        match a {
            Array::Str(d) => d@,
            _ => Seq::empty(),
        }
    }

    open spec fn column(&self) -> Array {
        *self
    }

    fn apply_inplace<F>(&mut self, f: F) -> (res: Result<(), Error>) where
        F: Fn(&mut String) + Sync + Send,
    {
        match self {
            Array::Str(d) => {
                d.apply_inplace(f);
                Ok(())
            },
            _ => Err(Error::TypeMismatch { actual: self.dtype_tag() }),
        }
    }

    fn apply<F>(&self, f: F) -> (res: Result<Array, Error>) where F: Fn(&String) -> String + Sync + Send {
        match self {
            Array::Str(d) => Ok(Array::Str(d.apply(f))),
            _ => Err(Error::TypeMismatch { actual: self.dtype_tag() }),
        }
    }

    fn get(&self, index: usize) -> (res: Result<Option<Option<&String>>, Error>) {
        match self {
            Array::Str(d) => Ok(d.get(index)),
            _ => Err(Error::TypeMismatch { actual: self.dtype_tag() }),
        }
    }

    fn push(&mut self, item: String) -> (res: Result<(), Error>) {
        match self {
            Array::Str(d) => {
                d.push(item);
                Ok(())
            },
            _ => Err(Error::TypeMismatch { actual: self.dtype_tag() }),
        }
    }
}

} // verus!
