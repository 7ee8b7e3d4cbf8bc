//! Decode failures.
//!
//! Decoding a document either fully succeeds or fails atomically with
//! one of these errors; nothing is silently defaulted.

use vstd::prelude::*;

verus! {

/// A failure to decode a document value, naming the offending field.
#[derive(Debug, PartialEq)]
pub enum DecodeError {
    /// The value under `field` matches no recognized shape.
    ShapeMismatch {
        /// The offending field.
        field: String,
    },
    /// The object carries `field`, which the selected shape does not
    /// define.
    UnknownField {
        /// The offending field.
        field: String,
    },
    /// The object lacks the required `field`.
    MissingField {
        /// The missing field.
        field: String,
    },
    /// The object carries more than one of a set of mutually
    /// exclusive keys.
    ConflictingKeys {
        /// The first conflicting key.
        first: String,
        /// The second conflicting key.
        second: String,
    },
}

/// The mathematical content of a [`DecodeError`].
#[verifier::ext_equal]
pub enum DecodeErrorView {
    /// The value under `field` matches no recognized shape.
    ShapeMismatch { field: Seq<char> },
    /// The object carries `field`, which the selected shape does not
    /// define.
    UnknownField { field: Seq<char> },
    /// The object lacks the required `field`.
    MissingField { field: Seq<char> },
    /// The object carries more than one of a set of mutually
    /// exclusive keys.
    ConflictingKeys { first: Seq<char>, second: Seq<char> },
}

impl View for DecodeError {
    type V = DecodeErrorView;

    open spec fn view(&self) -> DecodeErrorView {
        match self {
            DecodeError::ShapeMismatch { field } => DecodeErrorView::ShapeMismatch {
                field: field@,
            },
            DecodeError::UnknownField { field } => DecodeErrorView::UnknownField { field: field@ },
            DecodeError::MissingField { field } => DecodeErrorView::MissingField { field: field@ },
            DecodeError::ConflictingKeys { first, second } => DecodeErrorView::ConflictingKeys {
                first: first@,
                second: second@,
            },
        }
    }
}

impl DeepView for DecodeError {
    type V = DecodeErrorView;

    open spec fn deep_view(&self) -> DecodeErrorView {
        self.view()
    }
}

/// The mathematical content of a decode result: the content of the
/// decoded value, or the content of the error.
pub open spec fn res_view<T: DeepView, E: DeepView>(r: Result<T, E>) -> Result<T::V, E::V> {
    match r {
        Ok(t) => Ok(t.deep_view()),
        Err(e) => Err(e.deep_view()),
    }
}

} // verus!
