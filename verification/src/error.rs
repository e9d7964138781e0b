//! The error taxonomy of the boundary layer. Every fallible operation
//! returns one of these kinds; nothing panics and nothing is swallowed
//! beyond the two documented silent-skip behaviours (the record view's
//! bad-key drop and the emitter's unknown-operator skip).

use vstd::prelude::*;

verus! {

/// The view a caller asked a value to take. A failed conversion names the
/// kind that was expected.
#[derive(Clone, Copy, Debug, PartialEq, Eq, Structural)]
pub enum ViewKind {
    Number,
    Time,
    Bool,
    Text,
    List,
    Record,
    Callable,
}

/// Errors of the value layer.
#[derive(Clone, Copy, Debug, PartialEq, Eq, Structural)]
pub enum Error {
    /// The host datum is absent (nil) or not convertible to the requested
    /// view.
    Conversion(ViewKind),
    /// An operation required a non-nil host value and received nil.
    Nil,
    /// Host text bytes are not valid text.
    Encoding,
}

/// Errors of argument resolution.
#[derive(Clone, Copy, Debug, PartialEq, Eq, Structural)]
pub enum ArgError {
    /// The resolver was asked for a parameter name absent from the
    /// signature.
    UndefinedArgument,
    /// A required, non-variadic parameter had no matching call entry.
    MissingRequiredArgument,
}

/// Errors of building a call from a flat host argument list.
#[derive(Clone, Copy, Debug, PartialEq, Eq, Structural)]
pub enum BuildError {
    /// The flat list is empty or of odd length.
    Arity,
    /// A name-position element is not a name-like token.
    Type,
}

} // verus!
