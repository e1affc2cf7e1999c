//! Common traits.

use vstd::prelude::*;

verus! {

/// Unwrapping that does not need the error type to be printable.
pub trait DiscreetUnwrap<T, E>: Sized {
    /// Whether there is a value to unwrap.
    spec fn has_value(&self) -> bool;

    /// The value to unwrap.
    spec fn value(&self) -> T;

    /// The value; there must be one.
    fn dunwrap(self) -> (r: T)
        requires self.has_value(),
        ensures r == self.value();
}

impl<T, E> DiscreetUnwrap<T, E> for Result<T, E> {
    open spec fn has_value(&self) -> bool {
        self is Ok
    }

    open spec fn value(&self) -> T {
        self->Ok_0
    }

    fn dunwrap(self) -> (r: T) {
        match self {
            Ok(r) => r,
            Err(_) => vstd::pervasive::unreached(),
        }
    }
}

} // verus!
