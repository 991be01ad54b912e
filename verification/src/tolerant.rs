//! Zero values of tolerant records.
//!
//! Every record of the document tree can be built from nothing: each of its fields has a zero
//! value (the empty text, the empty sequence, the absent option, a designated variant), and the
//! record whose fields all hold theirs stands for an element that the document did not have.
use vstd::prelude::*;

verus! {

/// A record that is always constructible, and that knows when it stands for an absent element.
///
/// `Default::default()` of every implementor returns a value for which `is_zero` holds.
pub trait Tolerant: Sized {
    /// Every field holds its zero value.
    spec fn is_zero(&self) -> bool;

    /// Whether this record is its type's zero value.
    fn is_default(&self) -> (b: bool)
        ensures
            b == self.is_zero(),
    ;
}

} // verus!
