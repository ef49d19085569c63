//! A typed, in-memory columnar data engine.
//!
//! [`ArrayData`] is a sequence of elements of one type with a parallel map,
//! append and row multiplication. [`Array`] is a column: one of eleven
//! variants, each an `ArrayData` of its element type, with operations that do
//! not name the element type and, through [`DataType`], operations that do and
//! fail where the caller's type is not the column's. [`DataFrame`] keeps
//! columns by name in the order in which the names came in. [`melt`] turns a
//! wide dataframe into a long one.
//!
//! The elements of the two floating-point column types are kept as the bit
//! patterns of the numbers; the library itself computes with integers and
//! text only.

pub mod array;
pub mod array_data;
pub mod coerce;
pub mod dataframe;
pub mod datatype;
pub mod dtype;
pub mod error;
pub mod iter;
pub mod least;
pub mod melt;

pub use crate::array::{Array, F32Bits, F64Bits};
pub use crate::array_data::ArrayData;
pub use crate::dataframe::DataFrame;
pub use crate::datatype::DataType;
pub use crate::dtype::DType;
pub use crate::error::Error;
pub use crate::iter::{ArrayIterator, DataTypeIterator};
pub use crate::melt::melt;
