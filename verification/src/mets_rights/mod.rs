//! METS rights declarations, <http://cosimo.stanford.edu/sdr/metsrights/>.

use crate::tolerant::Tolerant;
use vstd::prelude::*;

verus! {

/// `metsRights:ConstraintDescription`: description of a condition that restricts the
/// permissions granted.
#[derive(Debug, Clone, PartialEq)]
pub struct ConstraintDescription(pub String);

impl Default for ConstraintDescription {
    fn default() -> (r: Self)
        ensures
            r.is_zero(),
    {
        ConstraintDescription(String::new())
    }
}

impl Tolerant for ConstraintDescription {
    open spec fn is_zero(&self) -> bool {
        self.0@.len() == 0
    }

    fn is_default(&self) -> (b: bool) {
        self.0.as_str().is_empty()
    }
}

/// `metsRights:Constraints`: a condition that restricts the permissions granted.
#[derive(Debug, Clone, PartialEq)]
pub struct Constraints {
    /// Attribute `CONSTRAINTTYPE`.
    pub constrainttype: String,
    /// Attribute `OTHERCONSTRAINTTYPE`.
    pub otherconstrainttype: Option<String>,
    /// Child elements.
    pub values: Vec<ConstraintDescription>,
}

impl Default for Constraints {
    fn default() -> (r: Self)
        ensures
            r.is_zero(),
    {
        Constraints {
            constrainttype: String::new(),
            otherconstrainttype: None,
            values: Vec::new(),
        }
    }
}

impl Tolerant for Constraints {
    open spec fn is_zero(&self) -> bool {
        &&& self.constrainttype@.len() == 0
        &&& self.otherconstrainttype is None
        &&& self.values@.len() == 0
    }

    fn is_default(&self) -> (b: bool) {
        self.constrainttype.as_str().is_empty()
            && self.otherconstrainttype.is_none()
            && self.values.len() == 0
    }
}

/// `metsRights:Context`: permissions and constraints in one context of use, by kind of public.
#[derive(Debug, Clone, PartialEq)]
pub struct Context {
    /// Attribute `CONTEXTCLASS`.
    pub contextclass: String,
    /// Attribute `OTHERCONTEXTTYPE`.
    pub othercontexttype: Option<String>,
    /// Child elements.
    pub values: Vec<ContextValues>,
}

impl Default for Context {
    fn default() -> (r: Self)
        ensures
            r.is_zero(),
    {
        Context {
            contextclass: String::new(),
            othercontexttype: None,
            values: Vec::new(),
        }
    }
}

impl Tolerant for Context {
    open spec fn is_zero(&self) -> bool {
        &&& self.contextclass@.len() == 0
        &&& self.othercontexttype is None
        &&& self.values@.len() == 0
    }

    fn is_default(&self) -> (b: bool) {
        self.contextclass.as_str().is_empty()
            && self.othercontexttype.is_none()
            && self.values.len() == 0
    }
}

/// Children of [`Context`].
#[derive(Debug, Clone, PartialEq)]
pub enum ContextValues {
    /// Element `Permissions`.
    Permissions(Permissions),
    /// Element `Constraints`.
    Constraints(Constraints),
}

/// `metsRights:Permissions`: how the rights holder lets the thesis be used in a given context.
#[derive(Debug, Clone, PartialEq)]
pub struct Permissions {
    /// Attribute `DISCOVER`.
    pub discover: Option<bool>,
    /// Attribute `DISPLAY`.
    pub display: Option<bool>,
    /// Attribute `COPY`.
    pub copy: Option<bool>,
    /// Attribute `DUPLICATE`.
    pub duplicate: Option<bool>,
    /// Attribute `MODIFY`.
    pub modify: Option<bool>,
    /// Attribute `DELETE`.
    pub delete: Option<bool>,
    /// Attribute `PRINT`.
    pub print: Option<bool>,
    /// Attribute `OTHER`.
    pub other: Option<bool>,
    /// Attribute `OTHERPERMITTYPE`.
    pub otherpermittype: Option<String>,
}

impl Default for Permissions {
    fn default() -> (r: Self)
        ensures
            r.is_zero(),
    {
        Permissions {
            discover: None,
            display: None,
            copy: None,
            duplicate: None,
            modify: None,
            delete: None,
            print: None,
            other: None,
            otherpermittype: None,
        }
    }
}

impl Tolerant for Permissions {
    open spec fn is_zero(&self) -> bool {
        &&& self.discover is None
        &&& self.display is None
        &&& self.copy is None
        &&& self.duplicate is None
        &&& self.modify is None
        &&& self.delete is None
        &&& self.print is None
        &&& self.other is None
        &&& self.otherpermittype is None
    }

    fn is_default(&self) -> (b: bool) {
        self.discover.is_none()
            && self.display.is_none()
            && self.copy.is_none()
            && self.duplicate.is_none()
            && self.modify.is_none()
            && self.delete.is_none()
            && self.print.is_none()
            && self.other.is_none()
            && self.otherpermittype.is_none()
    }
}

/// `metsRights:RightsDeclaration`: free-text statement about rights.
#[derive(Debug, Clone, PartialEq)]
pub struct RightsDeclaration(pub String);

impl Default for RightsDeclaration {
    fn default() -> (r: Self)
        ensures
            r.is_zero(),
    {
        RightsDeclaration(String::new())
    }
}

impl Tolerant for RightsDeclaration {
    open spec fn is_zero(&self) -> bool {
        self.0@.len() == 0
    }

    fn is_default(&self) -> (b: bool) {
        self.0.as_str().is_empty()
    }
}

/// `metsRights:RightsDeclarationMD`: the whole of the rights metadata.
#[derive(Debug, Clone, PartialEq)]
pub struct RightsDeclarationMD {
    /// Child elements.
    pub values: Vec<RightsDeclarationMDValues>,
}

impl Default for RightsDeclarationMD {
    fn default() -> (r: Self)
        ensures
            r.is_zero(),
    {
        RightsDeclarationMD {
            values: Vec::new(),
        }
    }
}

impl Tolerant for RightsDeclarationMD {
    open spec fn is_zero(&self) -> bool {
        self.values@.len() == 0
    }

    fn is_default(&self) -> (b: bool) {
        self.values.len() == 0
    }
}

/// Children of [`RightsDeclarationMD`].
#[derive(Debug, Clone, PartialEq)]
pub enum RightsDeclarationMDValues {
    /// Element `RightsDeclaration`.
    RightsDeclaration(RightsDeclaration),
    /// Element `Context`.
    Context(Context),
    /// Element `RightsHolder`.
    RightsHolder(RightsHolder),
}

/// `metsRights:RightsHolder`: the persons or institutions that hold rights on an external
/// resource included in the thesis.
#[derive(Debug, Clone, PartialEq)]
pub struct RightsHolder(pub Vec<RightsHolderName>);

impl Default for RightsHolder {
    fn default() -> (r: Self)
        ensures
            r.is_zero(),
    {
        RightsHolder(Vec::new())
    }
}

impl Tolerant for RightsHolder {
    open spec fn is_zero(&self) -> bool {
        self.0@.len() == 0
    }

    fn is_default(&self) -> (b: bool) {
        self.0.len() == 0
    }
}

/// `metsRights:RightsHolderName`: name of a holder of rights on an external resource.
#[derive(Debug, Clone, PartialEq)]
pub struct RightsHolderName(pub String);

impl Default for RightsHolderName {
    fn default() -> (r: Self)
        ensures
            r.is_zero(),
    {
        RightsHolderName(String::new())
    }
}

impl Tolerant for RightsHolderName {
    open spec fn is_zero(&self) -> bool {
        self.0@.len() == 0
    }

    fn is_default(&self) -> (b: bool) {
        self.0.as_str().is_empty()
    }
}

} // verus!
