//! MADS authority elements, <http://www.loc.gov/mads/>.

use crate::tolerant::Tolerant;
use vstd::prelude::*;

verus! {

/// `mads:description`: free-text description of a person.
#[derive(Debug, Clone, PartialEq)]
pub struct Description {
    /// Text content.
    pub value: String,
}

impl Description {
    pub fn value(&self) -> (r: &String)
        ensures
            *r == self.value,
    {
        &self.value
    }
}

impl Default for Description {
    fn default() -> (r: Self)
        ensures
            r.is_zero(),
    {
        Description {
            value: String::new(),
        }
    }
}

impl Tolerant for Description {
    open spec fn is_zero(&self) -> bool {
        self.value@.len() == 0
    }

    fn is_default(&self) -> (b: bool) {
        self.value.as_str().is_empty()
    }
}

/// `mads:namePart`: one part of the full name of a person.
#[derive(Debug, Clone, PartialEq)]
pub struct NamePart {
    /// Attribute `type`.
    pub type_: String,
    /// Text content.
    pub value: String,
}

impl NamePart {
    pub fn type_(&self) -> (r: &String)
        ensures
            *r == self.type_,
    {
        &self.type_
    }

    pub fn value(&self) -> (r: &String)
        ensures
            *r == self.value,
    {
        &self.value
    }
}

impl Default for NamePart {
    fn default() -> (r: Self)
        ensures
            r.is_zero(),
    {
        NamePart {
            type_: String::new(),
            value: String::new(),
        }
    }
}

impl Tolerant for NamePart {
    open spec fn is_zero(&self) -> bool {
        &&& self.type_@.len() == 0
        &&& self.value@.len() == 0
    }

    fn is_default(&self) -> (b: bool) {
        self.type_.as_str().is_empty()
            && self.value.as_str().is_empty()
    }
}

} // verus!
