//! The METS container, <http://www.loc.gov/METS/>: sections, wrappers and the structure map.

use crate::gestion::star::{StarGestion};
use crate::gestion::step::{StepGestion};
use crate::mets_rights::{RightsDeclarationMD};
use crate::tef::{
    Edition, MetaFichier, RessourceExterneDescription, ThesisAdmin, ThesisRecord, Version,
};
use crate::tolerant::Tolerant;
use vstd::prelude::*;

verus! {

/// `mets:agent`: a person who contributed to the METS document, with their role.
#[derive(Debug, Clone, PartialEq)]
pub struct Agent {
    /// Attribute `ROLE`.
    pub role: String,
    /// Attribute `OTHERROLE`.
    pub otherrole: Option<String>,
    /// Child elements.
    pub values: Vec<AgentValues>,
}

impl Agent {
    pub fn role(&self) -> (r: &String)
        ensures
            *r == self.role,
    {
        &self.role
    }

    pub fn otherrole(&self) -> (r: &Option<String>)
        ensures
            *r == self.otherrole,
    {
        &self.otherrole
    }

    pub fn values(&self) -> (r: &Vec<AgentValues>)
        ensures
            *r == self.values,
    {
        &self.values
    }
}

impl Default for Agent {
    fn default() -> (r: Self)
        ensures
            r.is_zero(),
    {
        Agent {
            role: String::new(),
            otherrole: None,
            values: Vec::new(),
        }
    }
}

impl Tolerant for Agent {
    open spec fn is_zero(&self) -> bool {
        &&& self.role@.len() == 0
        &&& self.otherrole is None
        &&& self.values@.len() == 0
    }

    fn is_default(&self) -> (b: bool) {
        self.role.as_str().is_empty()
            && self.otherrole.is_none()
            && self.values.len() == 0
    }
}

/// Children of [`Agent`].
#[derive(Debug, Clone, PartialEq)]
pub enum AgentValues {
    /// Element `name`.
    Name(Name),
    /// Element `note`.
    Note(Note),
}

/// `mets:altRecordID`: alternative record identifier, beside the primary one held by the root.
#[derive(Debug, Clone, PartialEq)]
pub struct AltRecordID {
    /// Attribute `ID`.
    pub id: String,
    /// Attribute `TYPE`.
    pub type_: Option<String>,
}

impl AltRecordID {
    pub fn id(&self) -> (r: &String)
        ensures
            *r == self.id,
    {
        &self.id
    }

    pub fn type_(&self) -> (r: &Option<String>)
        ensures
            *r == self.type_,
    {
        &self.type_
    }
}

impl Default for AltRecordID {
    fn default() -> (r: Self)
        ensures
            r.is_zero(),
    {
        AltRecordID {
            id: String::new(),
            type_: None,
        }
    }
}

impl Tolerant for AltRecordID {
    open spec fn is_zero(&self) -> bool {
        &&& self.id@.len() == 0
        &&& self.type_ is None
    }

    fn is_default(&self) -> (b: bool) {
        self.id.as_str().is_empty()
            && self.type_.is_none()
    }
}

/// `mets:amdSec`: administrative section: holds every block of administrative metadata of the
/// described entities.
#[derive(Debug, Clone, PartialEq)]
pub struct AmdSec {
    /// Child elements.
    pub values: Vec<AmdSecValues>,
}

impl AmdSec {
    pub fn values(&self) -> (r: &Vec<AmdSecValues>)
        ensures
            *r == self.values,
    {
        &self.values
    }
}

impl Default for AmdSec {
    fn default() -> (r: Self)
        ensures
            r.is_zero(),
    {
        AmdSec {
            values: Vec::new(),
        }
    }
}

impl Tolerant for AmdSec {
    open spec fn is_zero(&self) -> bool {
        self.values@.len() == 0
    }

    fn is_default(&self) -> (b: bool) {
        self.values.len() == 0
    }
}

/// Children of [`AmdSec`].
#[derive(Debug, Clone, PartialEq)]
pub enum AmdSecValues {
    /// Element `techMD`.
    TechMD(TechMD),
    /// Element `rightsMD`.
    RightsMD(RightsMD),
}

/// `mets:div`: division of the structure map: one entity of the model (the thesis, a version,
/// an edition or an external resource).
#[derive(Debug, PartialEq)]
pub struct Div {
    /// Attribute `TYPE`.
    pub type_: String,
    /// Attribute `DMDID`.
    pub dmdid: Option<String>,
    /// Attribute `ADMID`.
    pub amdid: Option<String>,
    /// Attribute `ID`.
    pub id: Option<String>,
    /// Attribute `CONTENTIDS`.
    pub contentids: Option<String>,
    /// Child elements.
    pub values: Vec<DivValues>,
}

impl Div {
    pub fn type_(&self) -> (r: &String)
        ensures
            *r == self.type_,
    {
        &self.type_
    }

    pub fn dmdid(&self) -> (r: &Option<String>)
        ensures
            *r == self.dmdid,
    {
        &self.dmdid
    }

    pub fn amdid(&self) -> (r: &Option<String>)
        ensures
            *r == self.amdid,
    {
        &self.amdid
    }

    pub fn id(&self) -> (r: &Option<String>)
        ensures
            *r == self.id,
    {
        &self.id
    }

    pub fn contentids(&self) -> (r: &Option<String>)
        ensures
            *r == self.contentids,
    {
        &self.contentids
    }

    pub fn values(&self) -> (r: &Vec<DivValues>)
        ensures
            *r == self.values,
    {
        &self.values
    }
}

impl Default for Div {
    fn default() -> (r: Self)
        ensures
            r.is_zero(),
    {
        Div {
            type_: String::new(),
            dmdid: None,
            amdid: None,
            id: None,
            contentids: None,
            values: Vec::new(),
        }
    }
}

impl Tolerant for Div {
    open spec fn is_zero(&self) -> bool {
        &&& self.type_@.len() == 0
        &&& self.dmdid is None
        &&& self.amdid is None
        &&& self.id is None
        &&& self.contentids is None
        &&& self.values@.len() == 0
    }

    fn is_default(&self) -> (b: bool) {
        self.type_.as_str().is_empty()
            && self.dmdid.is_none()
            && self.amdid.is_none()
            && self.id.is_none()
            && self.contentids.is_none()
            && self.values.len() == 0
    }
}

impl Div {
    /// The two divisions hold the same: attribute by attribute, and child by child all the
    /// way down.
    pub open spec fn same(self, other: Div) -> bool
        decreases self,
    {
        &&& self.type_ == other.type_
        &&& self.dmdid == other.dmdid
        &&& self.amdid == other.amdid
        &&& self.id == other.id
        &&& self.contentids == other.contentids
        &&& self.values@.len() == other.values@.len()
        &&& forall|i: int|
            0 <= i < self.values@.len() ==> (#[trigger] self.values@[i]).same(other.values@[i])
    }
}

impl Clone for Div {
    fn clone(&self) -> (r: Self)
        ensures
            self.same(r),
        decreases self,
    {
        let mut values: Vec<DivValues> = Vec::new();
        let mut i: usize = 0;
        while i < self.values.len()
            invariant
                i <= self.values.len(),
                values@.len() == i,
                forall|j: int| 0 <= j < i ==> (#[trigger] self.values@[j]).same(values@[j]),
            decreases self.values.len() - i,
        {
            values.push(self.values[i].clone());
            i += 1;
        }
        Div {
            type_: self.type_.clone(),
            dmdid: self.dmdid.clone(),
            amdid: self.amdid.clone(),
            id: self.id.clone(),
            contentids: self.contentids.clone(),
            values,
        }
    }
}

/// Children of [`Div`]: a nested division or a pointer to file content.
#[derive(Debug, PartialEq)]
pub enum DivValues {
    /// Element `div`.
    Div(Box<Div>),
    /// Element `fptr`.
    Fptr(Fptr),
}

impl DivValues {
    /// The two children are of one kind and hold the same.
    pub open spec fn same(self, other: DivValues) -> bool
        decreases self,
    {
        match (self, other) {
            (DivValues::Div(a), DivValues::Div(b)) => a.same(*b),
            (DivValues::Fptr(a), DivValues::Fptr(b)) => a == b,
            _ => false,
        }
    }
}

impl Clone for DivValues {
    fn clone(&self) -> (r: Self)
        ensures
            self.same(r),
        decreases self,
    {
        match self {
            DivValues::Div(div) => DivValues::Div(Box::new((&**div).clone())),
            DivValues::Fptr(fptr) => DivValues::Fptr(fptr.clone()),
        }
    }
}

/// `mets:dmdSec`: descriptive section: the descriptive metadata of one entity.
#[derive(Debug, Clone, PartialEq)]
pub struct DmdSec {
    /// Attribute `ID`.
    pub id: String,
    /// Attribute `CREATED`.
    pub created: Option<String>,
    /// Child element.
    pub value: MdWrap,
}

impl DmdSec {
    pub fn id(&self) -> (r: &String)
        ensures
            *r == self.id,
    {
        &self.id
    }

    pub fn created(&self) -> (r: &Option<String>)
        ensures
            *r == self.created,
    {
        &self.created
    }

    pub fn value(&self) -> (r: &MdWrap)
        ensures
            *r == self.value,
    {
        &self.value
    }
}

impl Default for DmdSec {
    fn default() -> (r: Self)
        ensures
            r.is_zero(),
    {
        DmdSec {
            id: String::new(),
            created: None,
            value: MdWrap::default(),
        }
    }
}

impl Tolerant for DmdSec {
    open spec fn is_zero(&self) -> bool {
        &&& self.id@.len() == 0
        &&& self.created is None
        &&& self.value.is_zero()
    }

    fn is_default(&self) -> (b: bool) {
        self.id.as_str().is_empty()
            && self.created.is_none()
            && self.value.is_default()
    }
}

/// `mets:file`: a file that is part of an electronic edition.
#[derive(Debug, PartialEq)]
pub struct File {
    /// Attribute `ID`.
    pub id: String,
    /// Attribute `MIMETYPE`.
    pub mimetype: Option<String>,
    /// Attribute `ADMID`.
    pub admid: String,
    /// Attribute `USE`.
    pub use_: Option<String>,
    /// Child element.
    pub value: FLocat,
}

impl File {
    pub fn id(&self) -> (r: &String)
        ensures
            *r == self.id,
    {
        &self.id
    }

    pub fn mimetype(&self) -> (r: &Option<String>)
        ensures
            *r == self.mimetype,
    {
        &self.mimetype
    }

    pub fn admid(&self) -> (r: &String)
        ensures
            *r == self.admid,
    {
        &self.admid
    }

    pub fn use_(&self) -> (r: &Option<String>)
        ensures
            *r == self.use_,
    {
        &self.use_
    }

    pub fn value(&self) -> (r: &FLocat)
        ensures
            *r == self.value,
    {
        &self.value
    }
}

impl Default for File {
    fn default() -> (r: Self)
        ensures
            r.is_zero(),
    {
        File {
            id: String::new(),
            mimetype: None,
            admid: String::new(),
            use_: None,
            value: FLocat::default(),
        }
    }
}

impl Tolerant for File {
    open spec fn is_zero(&self) -> bool {
        &&& self.id@.len() == 0
        &&& self.mimetype is None
        &&& self.admid@.len() == 0
        &&& self.use_ is None
        &&& self.value.is_zero()
    }

    fn is_default(&self) -> (b: bool) {
        self.id.as_str().is_empty()
            && self.mimetype.is_none()
            && self.admid.as_str().is_empty()
            && self.use_.is_none()
            && self.value.is_default()
    }
}

impl Clone for File {
    fn clone(&self) -> (r: Self)
        ensures
            r == *self,
    {
        File {
            id: self.id.clone(),
            mimetype: self.mimetype.clone(),
            admid: self.admid.clone(),
            use_: self.use_.clone(),
            value: self.value.clone(),
        }
    }
}

/// `mets:fileGrp`: group of files.
#[derive(Debug, PartialEq)]
pub struct FileGrp {
    /// Attribute `USE`.
    pub use_: Option<String>,
    /// Attribute `ID`.
    pub id: Option<String>,
    /// Child elements.
    pub values: Vec<FileGrpValues>,
}

impl FileGrp {
    pub fn use_(&self) -> (r: &Option<String>)
        ensures
            *r == self.use_,
    {
        &self.use_
    }

    pub fn id(&self) -> (r: &Option<String>)
        ensures
            *r == self.id,
    {
        &self.id
    }

    pub fn values(&self) -> (r: &Vec<FileGrpValues>)
        ensures
            *r == self.values,
    {
        &self.values
    }
}

impl Default for FileGrp {
    fn default() -> (r: Self)
        ensures
            r.is_zero(),
    {
        FileGrp {
            use_: None,
            id: None,
            values: Vec::new(),
        }
    }
}

impl Tolerant for FileGrp {
    open spec fn is_zero(&self) -> bool {
        &&& self.use_ is None
        &&& self.id is None
        &&& self.values@.len() == 0
    }

    fn is_default(&self) -> (b: bool) {
        self.use_.is_none()
            && self.id.is_none()
            && self.values.len() == 0
    }
}

impl FileGrp {
    /// The two groups hold the same: attribute by attribute, and child by child all the way
    /// down.
    pub open spec fn same(self, other: FileGrp) -> bool
        decreases self,
    {
        &&& self.use_ == other.use_
        &&& self.id == other.id
        &&& self.values@.len() == other.values@.len()
        &&& forall|i: int|
            0 <= i < self.values@.len() ==> (#[trigger] self.values@[i]).same(other.values@[i])
    }
}

impl Clone for FileGrp {
    fn clone(&self) -> (r: Self)
        ensures
            self.same(r),
        decreases self,
    {
        let mut values: Vec<FileGrpValues> = Vec::new();
        let mut i: usize = 0;
        while i < self.values.len()
            invariant
                i <= self.values.len(),
                values@.len() == i,
                forall|j: int| 0 <= j < i ==> (#[trigger] self.values@[j]).same(values@[j]),
            decreases self.values.len() - i,
        {
            values.push(self.values[i].clone());
            i += 1;
        }
        FileGrp { use_: self.use_.clone(), id: self.id.clone(), values }
    }
}

/// Children of [`FileGrp`].
#[derive(Debug, PartialEq)]
pub enum FileGrpValues {
    /// Element `file`.
    File(File),
    /// Element `fileGrp`.
    FileGrp(FileGrp),
}

impl FileGrpValues {
    /// The two children are of one kind and hold the same.
    pub open spec fn same(self, other: FileGrpValues) -> bool
        decreases self,
    {
        match (self, other) {
            (FileGrpValues::File(a), FileGrpValues::File(b)) => a == b,
            (FileGrpValues::FileGrp(a), FileGrpValues::FileGrp(b)) => a.same(b),
            _ => false,
        }
    }
}

impl Clone for FileGrpValues {
    fn clone(&self) -> (r: Self)
        ensures
            self.same(r),
        decreases self,
    {
        match self {
            FileGrpValues::File(file) => FileGrpValues::File(file.clone()),
            FileGrpValues::FileGrp(group) => FileGrpValues::FileGrp(group.clone()),
        }
    }
}

/// `mets:fileSec`: file section: inventory of all the files of all the editions of the thesis.
#[derive(Debug, Clone, PartialEq)]
pub struct FileSec {
    /// Attribute `ID`.
    pub id: Option<String>,
    /// Child elements.
    pub value: Vec<FileGrp>,
}

impl FileSec {
    pub fn id(&self) -> (r: &Option<String>)
        ensures
            *r == self.id,
    {
        &self.id
    }

    pub fn value(&self) -> (r: &Vec<FileGrp>)
        ensures
            *r == self.value,
    {
        &self.value
    }
}

impl Default for FileSec {
    fn default() -> (r: Self)
        ensures
            r.is_zero(),
    {
        FileSec {
            id: None,
            value: Vec::new(),
        }
    }
}

impl Tolerant for FileSec {
    open spec fn is_zero(&self) -> bool {
        &&& self.id is None
        &&& self.value@.len() == 0
    }

    fn is_default(&self) -> (b: bool) {
        self.id.is_none()
            && self.value.len() == 0
    }
}

/// `mets:FLocat`: location of a file.
#[derive(Debug, PartialEq)]
pub struct FLocat {
    /// Attribute `LOCTYPE`.
    pub loctype: String,
    /// Attribute `OTHERLOCTYPE`.
    pub otherloctype: Option<String>,
    /// Attribute `href`.
    pub href: String,
}

impl FLocat {
    pub fn loctype(&self) -> (r: &String)
        ensures
            *r == self.loctype,
    {
        &self.loctype
    }

    pub fn otherloctype(&self) -> (r: &Option<String>)
        ensures
            *r == self.otherloctype,
    {
        &self.otherloctype
    }

    pub fn href(&self) -> (r: &String)
        ensures
            *r == self.href,
    {
        &self.href
    }
}

impl Default for FLocat {
    fn default() -> (r: Self)
        ensures
            r.is_zero(),
    {
        FLocat {
            loctype: String::new(),
            otherloctype: None,
            href: String::new(),
        }
    }
}

impl Tolerant for FLocat {
    open spec fn is_zero(&self) -> bool {
        &&& self.loctype@.len() == 0
        &&& self.otherloctype is None
        &&& self.href@.len() == 0
    }

    fn is_default(&self) -> (b: bool) {
        self.loctype.as_str().is_empty()
            && self.otherloctype.is_none()
            && self.href.as_str().is_empty()
    }
}

impl Clone for FLocat {
    fn clone(&self) -> (r: Self)
        ensures
            r == *self,
    {
        FLocat {
            loctype: self.loctype.clone(),
            otherloctype: self.otherloctype.clone(),
            href: self.href.clone(),
        }
    }
}

/// `mets:fptr`: file pointer: ties a division to the files that hold it.
#[derive(Debug, PartialEq)]
pub struct Fptr {
    /// Attribute `FILEID`.
    pub fileid: Option<String>,
}

impl Fptr {
    pub fn fileid(&self) -> (r: &Option<String>)
        ensures
            *r == self.fileid,
    {
        &self.fileid
    }
}

impl Default for Fptr {
    fn default() -> (r: Self)
        ensures
            r.is_zero(),
    {
        Fptr {
            fileid: None,
        }
    }
}

impl Tolerant for Fptr {
    open spec fn is_zero(&self) -> bool {
        self.fileid is None
    }

    fn is_default(&self) -> (b: bool) {
        self.fileid.is_none()
    }
}

impl Clone for Fptr {
    fn clone(&self) -> (r: Self)
        ensures
            r == *self,
    {
        Fptr { fileid: self.fileid.clone() }
    }
}

/// `mets:mdWrap`: metadata wrapper: carries metadata of any schema inside the document.
#[derive(Debug, Clone, PartialEq)]
pub struct MdWrap {
    /// Child element.
    pub value: XmlData,
}

impl MdWrap {
    pub fn value(&self) -> (r: &XmlData)
        ensures
            *r == self.value,
    {
        &self.value
    }
}

impl Default for MdWrap {
    fn default() -> (r: Self)
        ensures
            r.is_zero(),
    {
        MdWrap {
            value: XmlData::default(),
        }
    }
}

impl Tolerant for MdWrap {
    open spec fn is_zero(&self) -> bool {
        self.value.is_zero()
    }

    fn is_default(&self) -> (b: bool) {
        self.value.is_default()
    }
}

/// `mets:mets`: root of a document.
#[derive(Debug, Clone, PartialEq)]
pub struct Mets {
    /// Attribute `OBJID`.
    pub objid: Option<String>,
    /// Attribute `PROFILE`.
    pub profile: Option<String>,
    /// Child elements.
    pub values: Vec<MetsValues>,
}

impl Mets {
    pub fn objid(&self) -> (r: &Option<String>)
        ensures
            *r == self.objid,
    {
        &self.objid
    }

    pub fn profile(&self) -> (r: &Option<String>)
        ensures
            *r == self.profile,
    {
        &self.profile
    }

    pub fn values(&self) -> (r: &Vec<MetsValues>)
        ensures
            *r == self.values,
    {
        &self.values
    }
}

impl Default for Mets {
    fn default() -> (r: Self)
        ensures
            r.is_zero(),
    {
        Mets {
            objid: None,
            profile: None,
            values: Vec::new(),
        }
    }
}

impl Tolerant for Mets {
    open spec fn is_zero(&self) -> bool {
        &&& self.objid is None
        &&& self.profile is None
        &&& self.values@.len() == 0
    }

    fn is_default(&self) -> (b: bool) {
        self.objid.is_none()
            && self.profile.is_none()
            && self.values.len() == 0
    }
}

/// Top-level sections of [`Mets`].
#[derive(Debug, Clone, PartialEq)]
pub enum MetsValues {
    /// Element `metsHdr`.
    MetsHdr(MetsHdr),
    /// Element `dmdSec`.
    DmdSec(DmdSec),
    /// Element `amdSec`.
    AmdSec(AmdSec),
    /// Element `fileSec`.
    FileSec(FileSec),
    /// Element `structMap`.
    StructMap(StructMap),
}

/// `mets:metsHdr`: header: metadata about the document itself.
#[derive(Debug, Clone, PartialEq)]
pub struct MetsHdr {
    /// Attribute `CREATEDATE`.
    pub createdate: Option<String>,
    /// Attribute `LASTMODDATE`.
    pub lastmoddate: Option<String>,
    /// Attribute `RECORDSTATUS`.
    pub recordstatus: Option<String>,
    /// Child elements.
    pub values: Vec<MetsHdrValues>,
}

impl MetsHdr {
    pub fn createdate(&self) -> (r: &Option<String>)
        ensures
            *r == self.createdate,
    {
        &self.createdate
    }

    pub fn lastmoddate(&self) -> (r: &Option<String>)
        ensures
            *r == self.lastmoddate,
    {
        &self.lastmoddate
    }

    pub fn recordstatus(&self) -> (r: &Option<String>)
        ensures
            *r == self.recordstatus,
    {
        &self.recordstatus
    }

    pub fn values(&self) -> (r: &Vec<MetsHdrValues>)
        ensures
            *r == self.values,
    {
        &self.values
    }
}

impl Default for MetsHdr {
    fn default() -> (r: Self)
        ensures
            r.is_zero(),
    {
        MetsHdr {
            createdate: None,
            lastmoddate: None,
            recordstatus: None,
            values: Vec::new(),
        }
    }
}

impl Tolerant for MetsHdr {
    open spec fn is_zero(&self) -> bool {
        &&& self.createdate is None
        &&& self.lastmoddate is None
        &&& self.recordstatus is None
        &&& self.values@.len() == 0
    }

    fn is_default(&self) -> (b: bool) {
        self.createdate.is_none()
            && self.lastmoddate.is_none()
            && self.recordstatus.is_none()
            && self.values.len() == 0
    }
}

/// Children of [`MetsHdr`].
#[derive(Debug, Clone, PartialEq)]
pub enum MetsHdrValues {
    /// Element `agent`.
    Agent(Agent),
    /// Element `altRecordID`.
    AltRecordID(AltRecordID),
}

/// `mets:name`: full name of an agent.
#[derive(Debug, Clone, PartialEq)]
pub struct Name(pub String);

impl Default for Name {
    fn default() -> (r: Self)
        ensures
            r.is_zero(),
    {
        Name(String::new())
    }
}

impl Tolerant for Name {
    open spec fn is_zero(&self) -> bool {
        self.0@.len() == 0
    }

    fn is_default(&self) -> (b: bool) {
        self.0.as_str().is_empty()
    }
}

/// `mets:note`: further information on what an agent did.
#[derive(Debug, Clone, PartialEq)]
pub struct Note(pub String);

impl Default for Note {
    fn default() -> (r: Self)
        ensures
            r.is_zero(),
    {
        Note(String::new())
    }
}

impl Tolerant for Note {
    open spec fn is_zero(&self) -> bool {
        self.0@.len() == 0
    }

    fn is_default(&self) -> (b: bool) {
        self.0.as_str().is_empty()
    }
}

/// `mets:rightsMD`: block of rights metadata that applies to one entity.
#[derive(Debug, Clone, PartialEq)]
pub struct RightsMD {
    /// Attribute `ID`.
    pub id: Option<String>,
    /// Child element.
    pub value: MdWrap,
}

impl RightsMD {
    pub fn id(&self) -> (r: &Option<String>)
        ensures
            *r == self.id,
    {
        &self.id
    }

    pub fn value(&self) -> (r: &MdWrap)
        ensures
            *r == self.value,
    {
        &self.value
    }
}

impl Default for RightsMD {
    fn default() -> (r: Self)
        ensures
            r.is_zero(),
    {
        RightsMD {
            id: None,
            value: MdWrap::default(),
        }
    }
}

impl Tolerant for RightsMD {
    open spec fn is_zero(&self) -> bool {
        &&& self.id is None
        &&& self.value.is_zero()
    }

    fn is_default(&self) -> (b: bool) {
        self.id.is_none()
            && self.value.is_default()
    }
}

/// `mets:structMap`: structure map: inventory of all the entities of the document.
#[derive(Debug, Clone, PartialEq)]
pub struct StructMap {
    /// Attribute `TYPE`.
    pub type_: String,
    /// Child elements.
    pub value: Vec<Div>,
}

impl StructMap {
    pub fn type_(&self) -> (r: &String)
        ensures
            *r == self.type_,
    {
        &self.type_
    }

    pub fn value(&self) -> (r: &Vec<Div>)
        ensures
            *r == self.value,
    {
        &self.value
    }
}

impl Default for StructMap {
    fn default() -> (r: Self)
        ensures
            r.is_zero(),
    {
        StructMap {
            type_: String::new(),
            value: Vec::new(),
        }
    }
}

impl Tolerant for StructMap {
    open spec fn is_zero(&self) -> bool {
        &&& self.type_@.len() == 0
        &&& self.value@.len() == 0
    }

    fn is_default(&self) -> (b: bool) {
        self.type_.as_str().is_empty()
            && self.value.len() == 0
    }
}

/// `mets:techMD`: block of technical or administrative metadata.
#[derive(Debug, Clone, PartialEq)]
pub struct TechMD {
    /// Attribute `ID`.
    pub id: String,
    /// Child element.
    pub value: MdWrap,
}

impl TechMD {
    pub fn id(&self) -> (r: &String)
        ensures
            *r == self.id,
    {
        &self.id
    }

    pub fn value(&self) -> (r: &MdWrap)
        ensures
            *r == self.value,
    {
        &self.value
    }
}

impl Default for TechMD {
    fn default() -> (r: Self)
        ensures
            r.is_zero(),
    {
        TechMD {
            id: String::new(),
            value: MdWrap::default(),
        }
    }
}

impl Tolerant for TechMD {
    open spec fn is_zero(&self) -> bool {
        &&& self.id@.len() == 0
        &&& self.value.is_zero()
    }

    fn is_default(&self) -> (b: bool) {
        self.id.as_str().is_empty()
            && self.value.is_default()
    }
}

/// `mets:xmlData`: wrapper of the metadata encoded as markup.
#[derive(Debug, Clone, PartialEq)]
pub struct XmlData {
    /// Child element.
    pub value: XmlDataValues,
}

impl XmlData {
    pub fn value(&self) -> (r: &XmlDataValues)
        ensures
            *r == self.value,
    {
        &self.value
    }
}

impl Default for XmlData {
    fn default() -> (r: Self)
        ensures
            r.is_zero(),
    {
        XmlData {
            value: XmlDataValues::default(),
        }
    }
}

impl Tolerant for XmlData {
    open spec fn is_zero(&self) -> bool {
        self.value.is_zero()
    }

    fn is_default(&self) -> (b: bool) {
        self.value.is_default()
    }
}

/// Payload of [`XmlData`]. Markup that matches no known payload binds to `Other`.
#[derive(Debug, Clone, PartialEq)]
pub enum XmlDataValues {
    /// Element `thesisRecord`.
    ThesisRecord(ThesisRecord),
    /// Element `version`.
    Version(Version),
    /// Element `edition`.
    Edition(Edition),
    /// Element `ressourceExterneDescription`.
    RessourceExterneDescription(RessourceExterneDescription),
    /// Element `thesisAdmin`.
    ThesisAdmin(ThesisAdmin),
    /// Element `meta_fichier`.
    MetaFichier(MetaFichier),
    /// Element `RightsDeclarationMD`.
    RightsDeclarationMD(RightsDeclarationMD),
    /// Element `star_gestion`.
    StarGestion(StarGestion),
    /// Element `step_gestion`.
    StepGestion(StepGestion),
    /// Anything else.
    Other,
}

impl Default for XmlDataValues {
    fn default() -> (r: Self)
        ensures
            r.is_zero(),
    {
        XmlDataValues::Other
    }
}

impl Tolerant for XmlDataValues {
    open spec fn is_zero(&self) -> bool {
        *self is Other
    }

    fn is_default(&self) -> (b: bool) {
        matches!(self, XmlDataValues::Other)
    }
}

} // verus!
