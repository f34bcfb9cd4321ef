//! Presence checks on handles that may be absent.
use vstd::prelude::*;

verus! {

/// A handle that may be absent.
pub trait NullCheck {
    fn not_null(&self) -> bool;

    fn is_null(&self) -> bool;
}

impl<T> NullCheck for Option<T> {
    fn not_null(&self) -> bool {
        self.is_some()
    }

    fn is_null(&self) -> bool {
        self.is_none()
    }
}

} // verus!
