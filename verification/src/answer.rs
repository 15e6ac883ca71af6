//! The trait that the macro implements, and its default.

use vstd::prelude::*;

verus! {

/// What `answer` returns for a type that does not override it.
pub const DEFAULT_ANSWER: i32 = 42;

/// A type with an answer.
///
/// An implementation with an empty body answers with [`DEFAULT_ANSWER`].
pub trait MyTrait {
    fn answer() -> (value: i32)
        default_ensures
            value == DEFAULT_ANSWER,
    {
        DEFAULT_ANSWER
    }
}

} // verus!
