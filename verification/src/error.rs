use crate::dtype::DType;
use vstd::prelude::*;

verus! {

/// Why an operation of this library failed.
#[derive(Debug, Clone, PartialEq, Eq)]
pub enum Error {
    /// The name is none of the eleven names of element types.
    UnknownType { dtype: String },
    /// The caller's element type is not the one that the column holds;
    /// `actual` is the column's.
    TypeMismatch { actual: DType },
    /// The dataframe has no column of that name.
    ColumnNotFound { name: String },
    /// Column `name` has no element at `index`.
    IndexOutOfRange { name: String, index: usize },
    /// Column `name` holds elements of type `actual`, not of the type that
    /// the caller declared for it.
    ReshapeTypeMismatch { name: String, actual: DType },
    /// The library has no conversion of elements from `from` to `to`.
    UnsupportedCoercion { from: DType, to: DType },
}

/// An error with its texts as sequences of characters.
pub enum ErrorView {
    UnknownType { dtype: Seq<char> },
    TypeMismatch { actual: DType },
    ColumnNotFound { name: Seq<char> },
    IndexOutOfRange { name: Seq<char>, index: nat },
    ReshapeTypeMismatch { name: Seq<char>, actual: DType },
    UnsupportedCoercion { from: DType, to: DType },
}

impl View for Error {
    type V = ErrorView;

    open spec fn view(&self) -> ErrorView {
        match self {
            Error::UnknownType { dtype } => ErrorView::UnknownType { dtype: dtype@ },
            Error::TypeMismatch { actual } => ErrorView::TypeMismatch { actual: *actual },
            Error::ColumnNotFound { name } => ErrorView::ColumnNotFound { name: name@ },
            Error::IndexOutOfRange { name, index } => ErrorView::IndexOutOfRange {
                name: name@,
                index: *index as nat,
            },
            Error::ReshapeTypeMismatch { name, actual } => ErrorView::ReshapeTypeMismatch {
                name: name@,
                actual: *actual,
            },
            Error::UnsupportedCoercion { from, to } => ErrorView::UnsupportedCoercion {
                from: *from,
                to: *to,
            },
        }
    }
}

/// `res` is the failure `e`.
pub open spec fn fails_with<V>(res: Result<V, Error>, e: ErrorView) -> bool {
    res matches Err(x) && x@ == e
}

} // verus!
