//! Dublin Core terms, <http://purl.org/dc/terms/>.

use crate::tolerant::Tolerant;
use vstd::prelude::*;

verus! {

/// `dcterms:abstract`: abstract of the thesis.
#[derive(Debug, Clone, PartialEq)]
pub struct Abstract {
    /// Attribute `lang`.
    pub lang: String,
    /// Text content.
    pub text: String,
}

impl Abstract {
    pub fn lang(&self) -> (r: &String)
        ensures
            *r == self.lang,
    {
        &self.lang
    }

    pub fn text(&self) -> (r: &String)
        ensures
            *r == self.text,
    {
        &self.text
    }
}

impl Default for Abstract {
    fn default() -> (r: Self)
        ensures
            r.is_zero(),
    {
        Abstract {
            lang: String::new(),
            text: String::new(),
        }
    }
}

impl Tolerant for Abstract {
    open spec fn is_zero(&self) -> bool {
        &&& self.lang@.len() == 0
        &&& self.text@.len() == 0
    }

    fn is_default(&self) -> (b: bool) {
        self.lang.as_str().is_empty()
            && self.text.as_str().is_empty()
    }
}

/// `dcterms:alternative`: the title and subtitle of the thesis in another language.
#[derive(Debug, Clone, PartialEq)]
pub struct Alternative {
    /// Attribute `lang`.
    pub lang: String,
    /// Text content.
    pub text: String,
}

impl Alternative {
    pub fn lang(&self) -> (r: &String)
        ensures
            *r == self.lang,
    {
        &self.lang
    }

    pub fn text(&self) -> (r: &String)
        ensures
            *r == self.text,
    {
        &self.text
    }
}

impl Default for Alternative {
    fn default() -> (r: Self)
        ensures
            r.is_zero(),
    {
        Alternative {
            lang: String::new(),
            text: String::new(),
        }
    }
}

impl Tolerant for Alternative {
    open spec fn is_zero(&self) -> bool {
        &&& self.lang@.len() == 0
        &&& self.text@.len() == 0
    }

    fn is_default(&self) -> (b: bool) {
        self.lang.as_str().is_empty()
            && self.text.as_str().is_empty()
    }
}

/// `dcterms:dateAccepted`: date of the defence of the thesis.
#[derive(Debug, Clone, PartialEq)]
pub struct DateAccepted {
    /// Attribute `type`.
    pub type_: String,
    /// Text content.
    pub text: String,
}

impl DateAccepted {
    pub fn type_(&self) -> (r: &String)
        ensures
            *r == self.type_,
    {
        &self.type_
    }

    pub fn text(&self) -> (r: &String)
        ensures
            *r == self.text,
    {
        &self.text
    }
}

impl Default for DateAccepted {
    fn default() -> (r: Self)
        ensures
            r.is_zero(),
    {
        DateAccepted {
            type_: String::new(),
            text: String::new(),
        }
    }
}

impl Tolerant for DateAccepted {
    open spec fn is_zero(&self) -> bool {
        &&& self.type_@.len() == 0
        &&& self.text@.len() == 0
    }

    fn is_default(&self) -> (b: bool) {
        self.type_.as_str().is_empty()
            && self.text.as_str().is_empty()
    }
}

/// `dcterms:extent`: size of a file, in bytes.
#[derive(Debug, Clone, PartialEq)]
pub struct Extent(pub String);

impl Default for Extent {
    fn default() -> (r: Self)
        ensures
            r.is_zero(),
    {
        Extent(String::new())
    }
}

impl Tolerant for Extent {
    open spec fn is_zero(&self) -> bool {
        self.0@.len() == 0
    }

    fn is_default(&self) -> (b: bool) {
        self.0.as_str().is_empty()
    }
}

/// `dcterms:issued`: date of publication of an edition of the thesis.
#[derive(Debug, Clone, PartialEq)]
pub struct Issued {
    /// Attribute `type`.
    pub type_: String,
    /// Text content.
    pub text: String,
}

impl Issued {
    pub fn type_(&self) -> (r: &String)
        ensures
            *r == self.type_,
    {
        &self.type_
    }

    pub fn text(&self) -> (r: &String)
        ensures
            *r == self.text,
    {
        &self.text
    }
}

impl Default for Issued {
    fn default() -> (r: Self)
        ensures
            r.is_zero(),
    {
        Issued {
            type_: String::new(),
            text: String::new(),
        }
    }
}

impl Tolerant for Issued {
    open spec fn is_zero(&self) -> bool {
        &&& self.type_@.len() == 0
        &&& self.text@.len() == 0
    }

    fn is_default(&self) -> (b: bool) {
        self.type_.as_str().is_empty()
            && self.text.as_str().is_empty()
    }
}

/// `dcterms:medium`: kind of file.
#[derive(Debug, Clone, PartialEq)]
pub struct Medium {
    /// Attribute `type`.
    pub type_: String,
    /// Text content.
    pub text: String,
}

impl Medium {
    pub fn type_(&self) -> (r: &String)
        ensures
            *r == self.type_,
    {
        &self.type_
    }

    pub fn text(&self) -> (r: &String)
        ensures
            *r == self.text,
    {
        &self.text
    }
}

impl Default for Medium {
    fn default() -> (r: Self)
        ensures
            r.is_zero(),
    {
        Medium {
            type_: String::new(),
            text: String::new(),
        }
    }
}

impl Tolerant for Medium {
    open spec fn is_zero(&self) -> bool {
        &&& self.type_@.len() == 0
        &&& self.text@.len() == 0
    }

    fn is_default(&self) -> (b: bool) {
        self.type_.as_str().is_empty()
            && self.text.as_str().is_empty()
    }
}

/// `dcterms:replaces`: another resource that the described resource replaces or succeeds.
#[derive(Debug, Clone, PartialEq)]
pub struct Replaces {
    /// Attribute `type`.
    pub type_: String,
    /// Text content.
    pub text: String,
}

impl Replaces {
    pub fn type_(&self) -> (r: &String)
        ensures
            *r == self.type_,
    {
        &self.type_
    }

    pub fn text(&self) -> (r: &String)
        ensures
            *r == self.text,
    {
        &self.text
    }
}

impl Default for Replaces {
    fn default() -> (r: Self)
        ensures
            r.is_zero(),
    {
        Replaces {
            type_: String::new(),
            text: String::new(),
        }
    }
}

impl Tolerant for Replaces {
    open spec fn is_zero(&self) -> bool {
        &&& self.type_@.len() == 0
        &&& self.text@.len() == 0
    }

    fn is_default(&self) -> (b: bool) {
        self.type_.as_str().is_empty()
            && self.text.as_str().is_empty()
    }
}

/// `dcterms:spatial`: spatial coverage of the subject of the thesis.
#[derive(Debug, Clone, PartialEq)]
pub struct Spatial {
    /// Attribute `type`.
    pub type_: Option<String>,
    /// Attribute `lang`.
    pub lang: Option<String>,
    /// Text content.
    pub text: String,
}

impl Spatial {
    pub fn type_(&self) -> (r: &Option<String>)
        ensures
            *r == self.type_,
    {
        &self.type_
    }

    pub fn lang(&self) -> (r: &Option<String>)
        ensures
            *r == self.lang,
    {
        &self.lang
    }

    pub fn text(&self) -> (r: &String)
        ensures
            *r == self.text,
    {
        &self.text
    }
}

impl Default for Spatial {
    fn default() -> (r: Self)
        ensures
            r.is_zero(),
    {
        Spatial {
            type_: None,
            lang: None,
            text: String::new(),
        }
    }
}

impl Tolerant for Spatial {
    open spec fn is_zero(&self) -> bool {
        &&& self.type_ is None
        &&& self.lang is None
        &&& self.text@.len() == 0
    }

    fn is_default(&self) -> (b: bool) {
        self.type_.is_none()
            && self.lang.is_none()
            && self.text.as_str().is_empty()
    }
}

/// `dcterms:tableOfContents`: table of contents of the thesis.
#[derive(Debug, Clone, PartialEq)]
pub struct TableOfContents {
    /// Attribute `lang`.
    pub lang: String,
    /// Text content.
    pub text: String,
}

impl TableOfContents {
    pub fn lang(&self) -> (r: &String)
        ensures
            *r == self.lang,
    {
        &self.lang
    }

    pub fn text(&self) -> (r: &String)
        ensures
            *r == self.text,
    {
        &self.text
    }
}

impl Default for TableOfContents {
    fn default() -> (r: Self)
        ensures
            r.is_zero(),
    {
        TableOfContents {
            lang: String::new(),
            text: String::new(),
        }
    }
}

impl Tolerant for TableOfContents {
    open spec fn is_zero(&self) -> bool {
        &&& self.lang@.len() == 0
        &&& self.text@.len() == 0
    }

    fn is_default(&self) -> (b: bool) {
        self.lang.as_str().is_empty()
            && self.text.as_str().is_empty()
    }
}

/// `dcterms:temporal`: temporal coverage of the subject of the thesis.
#[derive(Debug, Clone, PartialEq)]
pub struct Temporal {
    /// Attribute `type`.
    pub type_: Option<String>,
    /// Attribute `lang`.
    pub lang: String,
    /// Text content.
    pub text: String,
}

impl Temporal {
    pub fn type_(&self) -> (r: &Option<String>)
        ensures
            *r == self.type_,
    {
        &self.type_
    }

    pub fn lang(&self) -> (r: &String)
        ensures
            *r == self.lang,
    {
        &self.lang
    }

    pub fn text(&self) -> (r: &String)
        ensures
            *r == self.text,
    {
        &self.text
    }
}

impl Default for Temporal {
    fn default() -> (r: Self)
        ensures
            r.is_zero(),
    {
        Temporal {
            type_: None,
            lang: String::new(),
            text: String::new(),
        }
    }
}

impl Tolerant for Temporal {
    open spec fn is_zero(&self) -> bool {
        &&& self.type_ is None
        &&& self.lang@.len() == 0
        &&& self.text@.len() == 0
    }

    fn is_default(&self) -> (b: bool) {
        self.type_.is_none()
            && self.lang.as_str().is_empty()
            && self.text.as_str().is_empty()
    }
}

} // verus!
