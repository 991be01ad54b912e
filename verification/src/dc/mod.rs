//! Dublin Core elements, <http://purl.org/dc/elements/1.1/>.

use crate::tolerant::Tolerant;
use vstd::prelude::*;

verus! {

/// `dc:coverage`: spatial or temporal coverage: the scope or domain the content of the resource
/// applies to.
#[derive(Debug, Clone, PartialEq)]
pub struct Coverage(pub String);

impl Default for Coverage {
    fn default() -> (r: Self)
        ensures
            r.is_zero(),
    {
        Coverage(String::new())
    }
}

impl Tolerant for Coverage {
    open spec fn is_zero(&self) -> bool {
        self.0@.len() == 0
    }

    fn is_default(&self) -> (b: bool) {
        self.0.as_str().is_empty()
    }
}

/// `dc:identifier`: unique identifier.
#[derive(Debug, Clone, PartialEq)]
pub struct Identifier {
    /// Attribute `type`.
    pub type_: String,
    /// Text content.
    pub text: String,
}

impl Identifier {
    pub fn type_(&self) -> (r: &String)
        ensures
            *r == self.type_,
    {
        &self.type_
    }

    pub fn text(&self) -> (r: &String)
        ensures
            *r == self.text,
    {
        &self.text
    }
}

impl Default for Identifier {
    fn default() -> (r: Self)
        ensures
            r.is_zero(),
    {
        Identifier {
            type_: String::new(),
            text: String::new(),
        }
    }
}

impl Tolerant for Identifier {
    open spec fn is_zero(&self) -> bool {
        &&& self.type_@.len() == 0
        &&& self.text@.len() == 0
    }

    fn is_default(&self) -> (b: bool) {
        self.type_.as_str().is_empty()
            && self.text.as_str().is_empty()
    }
}

/// `dc:language`: language of the thesis.
#[derive(Debug, Clone, PartialEq)]
pub struct Language {
    /// Attribute `type`.
    pub type_: String,
    /// Text content.
    pub text: String,
}

impl Language {
    pub fn type_(&self) -> (r: &String)
        ensures
            *r == self.type_,
    {
        &self.type_
    }

    pub fn text(&self) -> (r: &String)
        ensures
            *r == self.text,
    {
        &self.text
    }
}

impl Default for Language {
    fn default() -> (r: Self)
        ensures
            r.is_zero(),
    {
        Language {
            type_: String::new(),
            text: String::new(),
        }
    }
}

impl Tolerant for Language {
    open spec fn is_zero(&self) -> bool {
        &&& self.type_@.len() == 0
        &&& self.text@.len() == 0
    }

    fn is_default(&self) -> (b: bool) {
        self.type_.as_str().is_empty()
            && self.text.as_str().is_empty()
    }
}

/// `dc:subject`: subject, discipline or keywords assigned to the thesis.
#[derive(Debug, Clone, PartialEq)]
pub struct Subject {
    /// Attribute `lang`.
    pub lang: Option<String>,
    /// Attribute `type`.
    pub type_: Option<String>,
    /// Text content.
    pub text: String,
}

impl Subject {
    pub fn lang(&self) -> (r: &Option<String>)
        ensures
            *r == self.lang,
    {
        &self.lang
    }

    pub fn type_(&self) -> (r: &Option<String>)
        ensures
            *r == self.type_,
    {
        &self.type_
    }

    pub fn text(&self) -> (r: &String)
        ensures
            *r == self.text,
    {
        &self.text
    }
}

impl Default for Subject {
    fn default() -> (r: Self)
        ensures
            r.is_zero(),
    {
        Subject {
            lang: None,
            type_: None,
            text: String::new(),
        }
    }
}

impl Tolerant for Subject {
    open spec fn is_zero(&self) -> bool {
        &&& self.lang is None
        &&& self.type_ is None
        &&& self.text@.len() == 0
    }

    fn is_default(&self) -> (b: bool) {
        self.lang.is_none()
            && self.type_.is_none()
            && self.text.as_str().is_empty()
    }
}

/// `dc:title`: proper title of the thesis and its subtitle.
#[derive(Debug, Clone, PartialEq)]
pub struct Title {
    /// Attribute `lang`.
    pub lang: String,
    /// Attribute `type`.
    pub type_: Option<String>,
    /// Text content.
    pub text: String,
}

impl Title {
    pub fn lang(&self) -> (r: &String)
        ensures
            *r == self.lang,
    {
        &self.lang
    }

    pub fn type_(&self) -> (r: &Option<String>)
        ensures
            *r == self.type_,
    {
        &self.type_
    }

    pub fn text(&self) -> (r: &String)
        ensures
            *r == self.text,
    {
        &self.text
    }
}

impl Default for Title {
    fn default() -> (r: Self)
        ensures
            r.is_zero(),
    {
        Title {
            lang: String::new(),
            type_: None,
            text: String::new(),
        }
    }
}

impl Tolerant for Title {
    open spec fn is_zero(&self) -> bool {
        &&& self.lang@.len() == 0
        &&& self.type_ is None
        &&& self.text@.len() == 0
    }

    fn is_default(&self) -> (b: bool) {
        self.lang.as_str().is_empty()
            && self.type_.is_none()
            && self.text.as_str().is_empty()
    }
}

/// `dc:type`: type of the resource.
#[derive(Debug, Clone, PartialEq)]
pub struct Type {
    /// Attribute `type`.
    pub type_: Option<String>,
    /// Text content.
    pub text: String,
}

impl Type {
    pub fn type_(&self) -> (r: &Option<String>)
        ensures
            *r == self.type_,
    {
        &self.type_
    }

    pub fn text(&self) -> (r: &String)
        ensures
            *r == self.text,
    {
        &self.text
    }
}

impl Default for Type {
    fn default() -> (r: Self)
        ensures
            r.is_zero(),
    {
        Type {
            type_: None,
            text: String::new(),
        }
    }
}

impl Tolerant for Type {
    open spec fn is_zero(&self) -> bool {
        &&& self.type_ is None
        &&& self.text@.len() == 0
    }

    fn is_default(&self) -> (b: bool) {
        self.type_.is_none()
            && self.text.as_str().is_empty()
    }
}

} // verus!
