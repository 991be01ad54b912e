//! Thesis metadata, <http://www.abes.fr/abes/documents/tef>.

use crate::dc::{Coverage, Identifier, Language, Subject, Title, Type};
use crate::dcterms::{Abstract, Alternative, DateAccepted, Extent, Issued, Medium, Replaces};
use crate::mads::{Description, NamePart};
use crate::tolerant::Tolerant;
use std::collections::HashMap;
use vstd::prelude::*;

verus! {

/// `tef:auteur`: author of the thesis.
#[derive(Debug, Clone, PartialEq)]
pub struct Auteur {
    /// Child element `nom`.
    pub nom: Nom,
    /// Child element `prenom`.
    pub prenom: Prenom,
    /// Child element `nomDeNaissance`.
    pub nom_de_naissance: Option<NomDeNaissance>,
    /// Child element `dateNaissance`.
    pub date_naissance: Option<DateNaissance>,
    /// Child element `nationalite`.
    pub nationalite: Option<String>,
    /// Child elements `autoriteExterne`.
    pub autorite_externe: Option<Vec<AutoriteExterne>>,
}

impl Auteur {
    pub fn nom(&self) -> (r: &Nom)
        ensures
            *r == self.nom,
    {
        &self.nom
    }

    pub fn prenom(&self) -> (r: &Prenom)
        ensures
            *r == self.prenom,
    {
        &self.prenom
    }

    pub fn nom_de_naissance(&self) -> (r: &Option<NomDeNaissance>)
        ensures
            *r == self.nom_de_naissance,
    {
        &self.nom_de_naissance
    }

    pub fn date_naissance(&self) -> (r: &Option<DateNaissance>)
        ensures
            *r == self.date_naissance,
    {
        &self.date_naissance
    }

    pub fn nationalite(&self) -> (r: &Option<String>)
        ensures
            *r == self.nationalite,
    {
        &self.nationalite
    }

    pub fn autorite_externe(&self) -> (r: &Option<Vec<AutoriteExterne>>)
        ensures
            *r == self.autorite_externe,
    {
        &self.autorite_externe
    }
}

impl Default for Auteur {
    fn default() -> (r: Self)
        ensures
            r.is_zero(),
    {
        Auteur {
            nom: Nom::default(),
            prenom: Prenom::default(),
            nom_de_naissance: None,
            date_naissance: None,
            nationalite: None,
            autorite_externe: None,
        }
    }
}

impl Tolerant for Auteur {
    open spec fn is_zero(&self) -> bool {
        &&& self.nom.is_zero()
        &&& self.prenom.is_zero()
        &&& self.nom_de_naissance is None
        &&& self.date_naissance is None
        &&& self.nationalite is None
        &&& self.autorite_externe is None
    }

    fn is_default(&self) -> (b: bool) {
        self.nom.is_default()
            && self.prenom.is_default()
            && self.nom_de_naissance.is_none()
            && self.date_naissance.is_none()
            && self.nationalite.is_none()
            && self.autorite_externe.is_none()
    }
}

/// `tef:autoriteExterne`: identifier of an authority record kept by an external system.
#[derive(Debug, Clone, PartialEq)]
pub struct AutoriteExterne {
    /// Attribute `autoriteSource`.
    pub autorite_source: String,
    /// Text content.
    pub text: String,
}

impl AutoriteExterne {
    pub fn autorite_source(&self) -> (r: &String)
        ensures
            *r == self.autorite_source,
    {
        &self.autorite_source
    }

    pub fn text(&self) -> (r: &String)
        ensures
            *r == self.text,
    {
        &self.text
    }
}

impl Default for AutoriteExterne {
    fn default() -> (r: Self)
        ensures
            r.is_zero(),
    {
        AutoriteExterne {
            autorite_source: String::new(),
            text: String::new(),
        }
    }
}

impl Tolerant for AutoriteExterne {
    open spec fn is_zero(&self) -> bool {
        &&& self.autorite_source@.len() == 0
        &&& self.text@.len() == 0
    }

    fn is_default(&self) -> (b: bool) {
        self.autorite_source.as_str().is_empty()
            && self.text.as_str().is_empty()
    }
}

/// `tef:autreFormatFichier`: a file format outside the list of [`FormatFichierValues`].
#[derive(Debug, Clone, PartialEq)]
pub struct AutoriteFormatFichier(pub String);

impl Default for AutoriteFormatFichier {
    fn default() -> (r: Self)
        ensures
            r.is_zero(),
    {
        AutoriteFormatFichier(String::new())
    }
}

impl Tolerant for AutoriteFormatFichier {
    open spec fn is_zero(&self) -> bool {
        self.0@.len() == 0
    }

    fn is_default(&self) -> (b: bool) {
        self.0.as_str().is_empty()
    }
}

/// `tef:autoriteInterne`: identifier of a block of authority data inside the document.
#[derive(Debug, Clone, PartialEq)]
pub struct AutoriteInterne(pub String);

impl Default for AutoriteInterne {
    fn default() -> (r: Self)
        ensures
            r.is_zero(),
    {
        AutoriteInterne(String::new())
    }
}

impl Tolerant for AutoriteInterne {
    open spec fn is_zero(&self) -> bool {
        self.0@.len() == 0
    }

    fn is_default(&self) -> (b: bool) {
        self.0.as_str().is_empty()
    }
}

/// `tef:avisJury`: opinion of the jury on whether the thesis may be distributed after the
/// defence.
#[derive(Debug, Clone, PartialEq)]
pub struct AvisJury(pub String);

impl Default for AvisJury {
    fn default() -> (r: Self)
        ensures
            r.is_zero(),
    {
        AvisJury(String::new())
    }
}

impl Tolerant for AvisJury {
    open spec fn is_zero(&self) -> bool {
        self.0@.len() == 0
    }

    fn is_default(&self) -> (b: bool) {
        self.0.as_str().is_empty()
    }
}

/// `tef:dateNaissance`: date of birth of the author.
#[derive(Debug, Clone, PartialEq)]
pub struct DateNaissance(pub String);

impl Default for DateNaissance {
    fn default() -> (r: Self)
        ensures
            r.is_zero(),
    {
        DateNaissance(String::new())
    }
}

impl Tolerant for DateNaissance {
    open spec fn is_zero(&self) -> bool {
        self.0@.len() == 0
    }

    fn is_default(&self) -> (b: bool) {
        self.0.as_str().is_empty()
    }
}

impl DateNaissance {
    /// The date as it was written.
    pub fn to_string(&self) -> (r: String)
        ensures
            r@ == self.0@,
    {
        self.0.clone()
    }
}

/// `tef:directeurThese`: thesis supervisor.
#[derive(Debug, Clone, PartialEq)]
pub struct DirecteurThese {
    /// Child element `nom`.
    pub nom: Nom,
    /// Child element `prenom`.
    pub prenom: Prenom,
    /// Child elements `autoriteInterne`.
    pub autorite_interne: Option<Vec<AutoriteInterne>>,
    /// Child elements `autoriteExterne`.
    pub autorite_externe: Option<Vec<AutoriteExterne>>,
}

impl DirecteurThese {
    pub fn nom(&self) -> (r: &Nom)
        ensures
            *r == self.nom,
    {
        &self.nom
    }

    pub fn prenom(&self) -> (r: &Prenom)
        ensures
            *r == self.prenom,
    {
        &self.prenom
    }

    pub fn autorite_interne(&self) -> (r: &Option<Vec<AutoriteInterne>>)
        ensures
            *r == self.autorite_interne,
    {
        &self.autorite_interne
    }

    pub fn autorite_externe(&self) -> (r: &Option<Vec<AutoriteExterne>>)
        ensures
            *r == self.autorite_externe,
    {
        &self.autorite_externe
    }
}

impl Default for DirecteurThese {
    fn default() -> (r: Self)
        ensures
            r.is_zero(),
    {
        DirecteurThese {
            nom: Nom::default(),
            prenom: Prenom::default(),
            autorite_interne: None,
            autorite_externe: None,
        }
    }
}

impl Tolerant for DirecteurThese {
    open spec fn is_zero(&self) -> bool {
        &&& self.nom.is_zero()
        &&& self.prenom.is_zero()
        &&& self.autorite_interne is None
        &&& self.autorite_externe is None
    }

    fn is_default(&self) -> (b: bool) {
        self.nom.is_default()
            && self.prenom.is_default()
            && self.autorite_interne.is_none()
            && self.autorite_externe.is_none()
    }
}

/// `tef:ecoleDoctorale`: doctoral school within which the research was done.
#[derive(Debug, Clone, PartialEq)]
pub struct EcoleDoctorale {
    /// Child element `nom`.
    pub nom: Nom,
    /// Child elements `autoriteInterne`.
    pub autorite_interne: Option<Vec<AutoriteInterne>>,
    /// Child elements `autoriteExterne`.
    pub autorite_externe: Option<Vec<AutoriteExterne>>,
}

impl EcoleDoctorale {
    pub fn nom(&self) -> (r: &Nom)
        ensures
            *r == self.nom,
    {
        &self.nom
    }

    pub fn autorite_interne(&self) -> (r: &Option<Vec<AutoriteInterne>>)
        ensures
            *r == self.autorite_interne,
    {
        &self.autorite_interne
    }

    pub fn autorite_externe(&self) -> (r: &Option<Vec<AutoriteExterne>>)
        ensures
            *r == self.autorite_externe,
    {
        &self.autorite_externe
    }
}

impl Default for EcoleDoctorale {
    fn default() -> (r: Self)
        ensures
            r.is_zero(),
    {
        EcoleDoctorale {
            nom: Nom::default(),
            autorite_interne: None,
            autorite_externe: None,
        }
    }
}

impl Tolerant for EcoleDoctorale {
    open spec fn is_zero(&self) -> bool {
        &&& self.nom.is_zero()
        &&& self.autorite_interne is None
        &&& self.autorite_externe is None
    }

    fn is_default(&self) -> (b: bool) {
        self.nom.is_default()
            && self.autorite_interne.is_none()
            && self.autorite_externe.is_none()
    }
}

/// `tef:editeur`: body responsible for an electronic edition of the thesis.
#[derive(Debug, Clone, PartialEq)]
pub struct Editeur {
    /// Child element `nom`.
    pub nom: Nom,
    /// Child element `place`.
    pub place: Place,
    /// Child elements `autoriteInterne`.
    pub autorite_interne: Option<Vec<AutoriteInterne>>,
    /// Child elements `autoriteExterne`.
    pub autorite_externe: Option<Vec<AutoriteExterne>>,
}

impl Editeur {
    pub fn nom(&self) -> (r: &Nom)
        ensures
            *r == self.nom,
    {
        &self.nom
    }

    pub fn place(&self) -> (r: &Place)
        ensures
            *r == self.place,
    {
        &self.place
    }

    pub fn autorite_interne(&self) -> (r: &Option<Vec<AutoriteInterne>>)
        ensures
            *r == self.autorite_interne,
    {
        &self.autorite_interne
    }

    pub fn autorite_externe(&self) -> (r: &Option<Vec<AutoriteExterne>>)
        ensures
            *r == self.autorite_externe,
    {
        &self.autorite_externe
    }
}

impl Default for Editeur {
    fn default() -> (r: Self)
        ensures
            r.is_zero(),
    {
        Editeur {
            nom: Nom::default(),
            place: Place::default(),
            autorite_interne: None,
            autorite_externe: None,
        }
    }
}

impl Tolerant for Editeur {
    open spec fn is_zero(&self) -> bool {
        &&& self.nom.is_zero()
        &&& self.place.is_zero()
        &&& self.autorite_interne is None
        &&& self.autorite_externe is None
    }

    fn is_default(&self) -> (b: bool) {
        self.nom.is_default()
            && self.place.is_default()
            && self.autorite_interne.is_none()
            && self.autorite_externe.is_none()
    }
}

/// `tef:edition`: metadata of one electronic edition of the thesis.
#[derive(Debug, Clone, PartialEq)]
pub struct Edition {
    /// Child elements.
    pub values: Vec<EditionValues>,
}

impl Edition {
    pub fn values(&self) -> (r: &Vec<EditionValues>)
        ensures
            *r == self.values,
    {
        &self.values
    }
}

impl Default for Edition {
    fn default() -> (r: Self)
        ensures
            r.is_zero(),
    {
        Edition {
            values: Vec::new(),
        }
    }
}

impl Tolerant for Edition {
    open spec fn is_zero(&self) -> bool {
        self.values@.len() == 0
    }

    fn is_default(&self) -> (b: bool) {
        self.values.len() == 0
    }
}

/// Children of [`Edition`]. Markup that matches no known child binds to `Other`.
#[derive(Debug, Clone, PartialEq)]
pub enum EditionValues {
    /// Element `medium`.
    Medium(Medium),
    /// Element `extent`.
    Extent(Extent),
    /// Element `identifier`.
    Identifier(Identifier),
    /// Element `issued`.
    Issued(Issued),
    /// Element `replaces`.
    Replaces(Replaces),
    /// Element `editeur`.
    Editeur(Editeur),
    /// Anything else.
    Other,
}

/// `tef:elementdEntree`: entry term of a subject heading.
#[derive(Debug, PartialEq)]
pub struct ElementdEntree {
    /// Attribute `autoriteExterne`.
    pub autorite_externe: Option<String>,
    /// Attribute `autoriteSource`.
    pub autorite_source: Option<String>,
    /// Text content.
    pub text: String,
}

impl ElementdEntree {
    pub fn autorite_externe(&self) -> (r: &Option<String>)
        ensures
            *r == self.autorite_externe,
    {
        &self.autorite_externe
    }

    pub fn autorite_source(&self) -> (r: &Option<String>)
        ensures
            *r == self.autorite_source,
    {
        &self.autorite_source
    }

    pub fn text(&self) -> (r: &String)
        ensures
            *r == self.text,
    {
        &self.text
    }
}

impl Default for ElementdEntree {
    fn default() -> (r: Self)
        ensures
            r.is_zero(),
    {
        ElementdEntree {
            autorite_externe: None,
            autorite_source: None,
            text: String::new(),
        }
    }
}

impl Tolerant for ElementdEntree {
    open spec fn is_zero(&self) -> bool {
        &&& self.autorite_externe is None
        &&& self.autorite_source is None
        &&& self.text@.len() == 0
    }

    fn is_default(&self) -> (b: bool) {
        self.autorite_externe.is_none()
            && self.autorite_source.is_none()
            && self.text.as_str().is_empty()
    }
}

impl Clone for ElementdEntree {
    fn clone(&self) -> (r: Self)
        ensures
            r == *self,
    {
        ElementdEntree {
            autorite_externe: self.autorite_externe.clone(),
            autorite_source: self.autorite_source.clone(),
            text: self.text.clone(),
        }
    }
}

/// `tef:encodage`: character encoding of a file.
#[derive(Debug, Clone, PartialEq)]
pub struct Encodage {
    /// Text content.
    pub text: EncodageValues,
}

impl Encodage {
    pub fn text(&self) -> (r: &EncodageValues)
        ensures
            *r == self.text,
    {
        &self.text
    }
}

impl Default for Encodage {
    fn default() -> (r: Self)
        ensures
            r.is_zero(),
    {
        Encodage {
            text: EncodageValues::default(),
        }
    }
}

impl Tolerant for Encodage {
    open spec fn is_zero(&self) -> bool {
        self.text.is_zero()
    }

    fn is_default(&self) -> (b: bool) {
        self.text.is_default()
    }
}

/// The encodings that [`Encodage`] can name.
#[derive(Debug, Clone, PartialEq)]
pub enum EncodageValues {
    /// Value `ASCII`.
    ASCII,
    /// Value `Latin 1`.
    Latin1,
    /// Value `Unicode`.
    Unicode,
}

impl Default for EncodageValues {
    fn default() -> (r: Self)
        ensures
            r.is_zero(),
    {
        EncodageValues::Unicode
    }
}

impl Tolerant for EncodageValues {
    open spec fn is_zero(&self) -> bool {
        *self is Unicode
    }

    fn is_default(&self) -> (b: bool) {
        matches!(self, EncodageValues::Unicode)
    }
}

/// `tef:formatFichier`: format of a file.
#[derive(Debug, Clone, PartialEq)]
pub struct FormatFichier {
    /// Text content.
    pub text: FormatFichierValues,
}

impl FormatFichier {
    pub fn text(&self) -> (r: &FormatFichierValues)
        ensures
            *r == self.text,
    {
        &self.text
    }
}

impl Default for FormatFichier {
    fn default() -> (r: Self)
        ensures
            r.is_zero(),
    {
        FormatFichier {
            text: FormatFichierValues::default(),
        }
    }
}

impl Tolerant for FormatFichier {
    open spec fn is_zero(&self) -> bool {
        self.text.is_zero()
    }

    fn is_default(&self) -> (b: bool) {
        self.text.is_default()
    }
}

/// The formats that [`FormatFichier`] can name.
#[derive(Debug, Clone, PartialEq)]
pub enum FormatFichierValues {
    /// Value `OpenDocument`.
    OpenDocument,
    /// Value `PDF`.
    PDF,
    /// Value `PDF/A`.
    PDFA,
    /// Value `HTML`.
    HTML,
    /// Value `RTF`.
    RTF,
    /// Value `TXT`.
    TXT,
    /// Value `XML`.
    XML,
    /// Value `JPEG`.
    JPEG,
    /// Value `GIF`.
    GIF,
    /// Value `PNG`.
    PNG,
    /// Value `TIFF`.
    TIFF,
    /// Value `MP3`.
    MP3,
    /// Value `MPEG`.
    MPEG,
    /// Value `QuickTime`.
    QuickTime,
    /// Value `autreFormat`.
    AutreFormat,
}

impl Default for FormatFichierValues {
    fn default() -> (r: Self)
        ensures
            r.is_zero(),
    {
        FormatFichierValues::AutreFormat
    }
}

impl Tolerant for FormatFichierValues {
    open spec fn is_zero(&self) -> bool {
        *self is AutreFormat
    }

    fn is_default(&self) -> (b: bool) {
        matches!(self, FormatFichierValues::AutreFormat)
    }
}

/// `tef:MADSAuthority`: minimal authority data on a person, physical or legal, named in the
/// record.
#[derive(Debug, Clone, PartialEq)]
pub struct MADSAuthority {
    /// Attribute `authorityID`.
    pub authority_id: String,
    /// Attribute `type`.
    pub type_: String,
    /// Child element.
    pub value: PersonMADS,
}

impl MADSAuthority {
    pub fn authority_id(&self) -> (r: &String)
        ensures
            *r == self.authority_id,
    {
        &self.authority_id
    }

    pub fn type_(&self) -> (r: &String)
        ensures
            *r == self.type_,
    {
        &self.type_
    }

    pub fn value(&self) -> (r: &PersonMADS)
        ensures
            *r == self.value,
    {
        &self.value
    }
}

impl Default for MADSAuthority {
    fn default() -> (r: Self)
        ensures
            r.is_zero(),
    {
        MADSAuthority {
            authority_id: String::new(),
            type_: String::new(),
            value: PersonMADS::default(),
        }
    }
}

impl Tolerant for MADSAuthority {
    open spec fn is_zero(&self) -> bool {
        &&& self.authority_id@.len() == 0
        &&& self.type_@.len() == 0
        &&& self.value.is_zero()
    }

    fn is_default(&self) -> (b: bool) {
        self.authority_id.as_str().is_empty()
            && self.type_.as_str().is_empty()
            && self.value.is_default()
    }
}

/// `tef:manque`: a part that is missing from an incomplete version.
#[derive(Debug, Clone, PartialEq)]
pub struct Manque {
    /// Child element `ressourceID`.
    pub ressource_id: Option<RessourceID>,
    /// Child element `noteVersion`.
    pub note_version: Option<NoteVersion>,
}

impl Manque {
    pub fn ressource_id(&self) -> (r: &Option<RessourceID>)
        ensures
            *r == self.ressource_id,
    {
        &self.ressource_id
    }

    pub fn note_version(&self) -> (r: &Option<NoteVersion>)
        ensures
            *r == self.note_version,
    {
        &self.note_version
    }
}

impl Default for Manque {
    fn default() -> (r: Self)
        ensures
            r.is_zero(),
    {
        Manque {
            ressource_id: None,
            note_version: None,
        }
    }
}

impl Tolerant for Manque {
    open spec fn is_zero(&self) -> bool {
        &&& self.ressource_id is None
        &&& self.note_version is None
    }

    fn is_default(&self) -> (b: bool) {
        self.ressource_id.is_none()
            && self.note_version.is_none()
    }
}

/// `tef:membreJury`: member of the jury.
#[derive(Debug, Clone, PartialEq)]
pub struct MembreJury {
    /// Child element `nom`.
    pub nom: Nom,
    /// Child element `prenom`.
    pub prenom: Prenom,
    /// Child elements `autoriteInterne`.
    pub autorite_interne: Option<Vec<AutoriteInterne>>,
    /// Child elements `autoriteExterne`.
    pub autorite_externe: Option<Vec<AutoriteExterne>>,
}

impl MembreJury {
    pub fn nom(&self) -> (r: &Nom)
        ensures
            *r == self.nom,
    {
        &self.nom
    }

    pub fn prenom(&self) -> (r: &Prenom)
        ensures
            *r == self.prenom,
    {
        &self.prenom
    }

    pub fn autorite_interne(&self) -> (r: &Option<Vec<AutoriteInterne>>)
        ensures
            *r == self.autorite_interne,
    {
        &self.autorite_interne
    }

    pub fn autorite_externe(&self) -> (r: &Option<Vec<AutoriteExterne>>)
        ensures
            *r == self.autorite_externe,
    {
        &self.autorite_externe
    }
}

impl Default for MembreJury {
    fn default() -> (r: Self)
        ensures
            r.is_zero(),
    {
        MembreJury {
            nom: Nom::default(),
            prenom: Prenom::default(),
            autorite_interne: None,
            autorite_externe: None,
        }
    }
}

impl Tolerant for MembreJury {
    open spec fn is_zero(&self) -> bool {
        &&& self.nom.is_zero()
        &&& self.prenom.is_zero()
        &&& self.autorite_interne is None
        &&& self.autorite_externe is None
    }

    fn is_default(&self) -> (b: bool) {
        self.nom.is_default()
            && self.prenom.is_default()
            && self.autorite_interne.is_none()
            && self.autorite_externe.is_none()
    }
}

/// `tef:meta_fichier`: technical metadata of one file.
#[derive(Debug, Clone, PartialEq)]
pub struct MetaFichier {
    /// Child element `encodage`.
    pub encodage: Option<Encodage>,
    /// Child element `formatFichier`.
    pub format_fichier: FormatFichier,
    /// Child element `noteFichier`.
    pub note_fichier: Option<NoteFichier>,
    /// Child element `structureFichier`.
    pub structure_fichier: Option<StructureFichier>,
    /// Child element `taille`.
    pub taille: Taille,
}

impl MetaFichier {
    pub fn encodage(&self) -> (r: &Option<Encodage>)
        ensures
            *r == self.encodage,
    {
        &self.encodage
    }

    pub fn format_fichier(&self) -> (r: &FormatFichier)
        ensures
            *r == self.format_fichier,
    {
        &self.format_fichier
    }

    pub fn note_fichier(&self) -> (r: &Option<NoteFichier>)
        ensures
            *r == self.note_fichier,
    {
        &self.note_fichier
    }

    pub fn structure_fichier(&self) -> (r: &Option<StructureFichier>)
        ensures
            *r == self.structure_fichier,
    {
        &self.structure_fichier
    }

    pub fn taille(&self) -> (r: &Taille)
        ensures
            *r == self.taille,
    {
        &self.taille
    }
}

impl Default for MetaFichier {
    fn default() -> (r: Self)
        ensures
            r.is_zero(),
    {
        MetaFichier {
            encodage: None,
            format_fichier: FormatFichier::default(),
            note_fichier: None,
            structure_fichier: None,
            taille: Taille::default(),
        }
    }
}

impl Tolerant for MetaFichier {
    open spec fn is_zero(&self) -> bool {
        &&& self.encodage is None
        &&& self.format_fichier.is_zero()
        &&& self.note_fichier is None
        &&& self.structure_fichier is None
        &&& self.taille.is_zero()
    }

    fn is_default(&self) -> (b: bool) {
        self.encodage.is_none()
            && self.format_fichier.is_default()
            && self.note_fichier.is_none()
            && self.structure_fichier.is_none()
            && self.taille.is_default()
    }
}

/// `tef:nationalite`: nationality of the author.
#[derive(Debug, Clone, PartialEq)]
pub struct Nationalite(pub String);

impl Default for Nationalite {
    fn default() -> (r: Self)
        ensures
            r.is_zero(),
    {
        Nationalite(String::new())
    }
}

impl Tolerant for Nationalite {
    open spec fn is_zero(&self) -> bool {
        self.0@.len() == 0
    }

    fn is_default(&self) -> (b: bool) {
        self.0.as_str().is_empty()
    }
}

/// `tef:nom`: family name of a physical person, or name of a legal person.
#[derive(Debug, Clone, PartialEq)]
pub struct Nom(pub String);

impl Default for Nom {
    fn default() -> (r: Self)
        ensures
            r.is_zero(),
    {
        Nom(String::new())
    }
}

impl Tolerant for Nom {
    open spec fn is_zero(&self) -> bool {
        self.0@.len() == 0
    }

    fn is_default(&self) -> (b: bool) {
        self.0.as_str().is_empty()
    }
}

/// `tef:nomDeNaissance`: family name of the author before a change of civil status.
#[derive(Debug, Clone, PartialEq)]
pub struct NomDeNaissance(pub String);

impl Default for NomDeNaissance {
    fn default() -> (r: Self)
        ensures
            r.is_zero(),
    {
        NomDeNaissance(String::new())
    }
}

impl Tolerant for NomDeNaissance {
    open spec fn is_zero(&self) -> bool {
        self.0@.len() == 0
    }

    fn is_default(&self) -> (b: bool) {
        self.0.as_str().is_empty()
    }
}

/// `tef:noteFichier`: note on a file.
#[derive(Debug, Clone, PartialEq)]
pub struct NoteFichier(pub String);

impl Default for NoteFichier {
    fn default() -> (r: Self)
        ensures
            r.is_zero(),
    {
        NoteFichier(String::new())
    }
}

impl Tolerant for NoteFichier {
    open spec fn is_zero(&self) -> bool {
        self.0@.len() == 0
    }

    fn is_default(&self) -> (b: bool) {
        self.0.as_str().is_empty()
    }
}

/// `tef:noteVersion`: free-text note on what an incomplete version lacks.
#[derive(Debug, Clone, PartialEq)]
pub struct NoteVersion(pub String);

impl Default for NoteVersion {
    fn default() -> (r: Self)
        ensures
            r.is_zero(),
    {
        NoteVersion(String::new())
    }
}

impl Tolerant for NoteVersion {
    open spec fn is_zero(&self) -> bool {
        self.0@.len() == 0
    }

    fn is_default(&self) -> (b: bool) {
        self.0.as_str().is_empty()
    }
}

/// `tef:oai_setSpec`: an OAI set the thesis belongs to.
#[derive(Debug, Clone, PartialEq)]
pub struct OaiSetSpec(pub String);

impl Default for OaiSetSpec {
    fn default() -> (r: Self)
        ensures
            r.is_zero(),
    {
        OaiSetSpec(String::new())
    }
}

impl Tolerant for OaiSetSpec {
    open spec fn is_zero(&self) -> bool {
        self.0@.len() == 0
    }

    fn is_default(&self) -> (b: bool) {
        self.0.as_str().is_empty()
    }
}

/// `tef:partenaireRecherche`: company or body that took part in the thesis by providing means.
#[derive(Debug, Clone, PartialEq)]
pub struct PartenaireRecherche {
    /// Attribute `type`.
    pub type_: PartenaireRechercheValues,
    /// Attribute `autreType`.
    pub autre_type: Option<String>,
    /// Child element `nom`.
    pub nom: Nom,
    /// Child elements `autoriteInterne`.
    pub autorite_interne: Option<Vec<AutoriteInterne>>,
    /// Child elements `autoriteExterne`.
    pub autorite_externe: Option<Vec<AutoriteExterne>>,
}

impl PartenaireRecherche {
    pub fn type_(&self) -> (r: &PartenaireRechercheValues)
        ensures
            *r == self.type_,
    {
        &self.type_
    }

    pub fn autre_type(&self) -> (r: &Option<String>)
        ensures
            *r == self.autre_type,
    {
        &self.autre_type
    }

    pub fn nom(&self) -> (r: &Nom)
        ensures
            *r == self.nom,
    {
        &self.nom
    }

    pub fn autorite_interne(&self) -> (r: &Option<Vec<AutoriteInterne>>)
        ensures
            *r == self.autorite_interne,
    {
        &self.autorite_interne
    }

    pub fn autorite_externe(&self) -> (r: &Option<Vec<AutoriteExterne>>)
        ensures
            *r == self.autorite_externe,
    {
        &self.autorite_externe
    }
}

impl Default for PartenaireRecherche {
    fn default() -> (r: Self)
        ensures
            r.is_zero(),
    {
        PartenaireRecherche {
            type_: PartenaireRechercheValues::default(),
            autre_type: None,
            nom: Nom::default(),
            autorite_interne: None,
            autorite_externe: None,
        }
    }
}

impl Tolerant for PartenaireRecherche {
    open spec fn is_zero(&self) -> bool {
        &&& self.type_.is_zero()
        &&& self.autre_type is None
        &&& self.nom.is_zero()
        &&& self.autorite_interne is None
        &&& self.autorite_externe is None
    }

    fn is_default(&self) -> (b: bool) {
        self.type_.is_default()
            && self.autre_type.is_none()
            && self.nom.is_default()
            && self.autorite_interne.is_none()
            && self.autorite_externe.is_none()
    }
}

/// The kinds of [`PartenaireRecherche`]. An unknown kind binds to `AutreType`.
#[derive(Debug, Clone, PartialEq, Eq, Hash)]
pub enum PartenaireRechercheValues {
    /// Value `laboratoire`.
    Laboratoire,
    /// Value `entreprise`.
    Entreprise,
    /// Value `fondation`.
    Fondation,
    /// Value `equipeRecherche`.
    EquipeRecherche,
    /// Anything else.
    AutreType,
}

impl Default for PartenaireRechercheValues {
    fn default() -> (r: Self)
        ensures
            r.is_zero(),
    {
        PartenaireRechercheValues::AutreType
    }
}

impl Tolerant for PartenaireRechercheValues {
    open spec fn is_zero(&self) -> bool {
        *self is AutreType
    }

    fn is_default(&self) -> (b: bool) {
        matches!(self, PartenaireRechercheValues::AutreType)
    }
}

/// `tef:personMADS`: authority data on one person.
#[derive(Debug, Clone, PartialEq)]
pub struct PersonMADS {
    /// Child elements `name_part`.
    pub name_part: Vec<NamePart>,
    /// Child element `description`.
    pub description: Description,
}

impl PersonMADS {
    pub fn name_part(&self) -> (r: &Vec<NamePart>)
        ensures
            *r == self.name_part,
    {
        &self.name_part
    }

    pub fn description(&self) -> (r: &Description)
        ensures
            *r == self.description,
    {
        &self.description
    }
}

impl Default for PersonMADS {
    fn default() -> (r: Self)
        ensures
            r.is_zero(),
    {
        PersonMADS {
            name_part: Vec::new(),
            description: Description::default(),
        }
    }
}

impl Tolerant for PersonMADS {
    open spec fn is_zero(&self) -> bool {
        &&& self.name_part@.len() == 0
        &&& self.description.is_zero()
    }

    fn is_default(&self) -> (b: bool) {
        self.name_part.len() == 0
            && self.description.is_default()
    }
}

/// `tef:place`: town of the body responsible for an edition.
#[derive(Debug, Clone, PartialEq)]
pub struct Place(pub String);

impl Default for Place {
    fn default() -> (r: Self)
        ensures
            r.is_zero(),
    {
        Place(String::new())
    }
}

impl Tolerant for Place {
    open spec fn is_zero(&self) -> bool {
        self.0@.len() == 0
    }

    fn is_default(&self) -> (b: bool) {
        self.0.as_str().is_empty()
    }
}

/// `tef:prenom`: first name of a physical person.
#[derive(Debug, Clone, PartialEq)]
pub struct Prenom(pub String);

impl Default for Prenom {
    fn default() -> (r: Self)
        ensures
            r.is_zero(),
    {
        Prenom(String::new())
    }
}

impl Tolerant for Prenom {
    open spec fn is_zero(&self) -> bool {
        self.0@.len() == 0
    }

    fn is_default(&self) -> (b: bool) {
        self.0.as_str().is_empty()
    }
}

/// `tef:presidentJury`: president of the jury.
#[derive(Debug, Clone, PartialEq)]
pub struct PresidentJury {
    /// Child element `nom`.
    pub nom: Nom,
    /// Child element `prenom`.
    pub prenom: Prenom,
    /// Child elements `autoriteInterne`.
    pub autorite_interne: Option<Vec<AutoriteInterne>>,
    /// Child elements `autoriteExterne`.
    pub autorite_externe: Option<Vec<AutoriteExterne>>,
}

impl PresidentJury {
    pub fn nom(&self) -> (r: &Nom)
        ensures
            *r == self.nom,
    {
        &self.nom
    }

    pub fn prenom(&self) -> (r: &Prenom)
        ensures
            *r == self.prenom,
    {
        &self.prenom
    }

    pub fn autorite_interne(&self) -> (r: &Option<Vec<AutoriteInterne>>)
        ensures
            *r == self.autorite_interne,
    {
        &self.autorite_interne
    }

    pub fn autorite_externe(&self) -> (r: &Option<Vec<AutoriteExterne>>)
        ensures
            *r == self.autorite_externe,
    {
        &self.autorite_externe
    }
}

impl Default for PresidentJury {
    fn default() -> (r: Self)
        ensures
            r.is_zero(),
    {
        PresidentJury {
            nom: Nom::default(),
            prenom: Prenom::default(),
            autorite_interne: None,
            autorite_externe: None,
        }
    }
}

impl Tolerant for PresidentJury {
    open spec fn is_zero(&self) -> bool {
        &&& self.nom.is_zero()
        &&& self.prenom.is_zero()
        &&& self.autorite_interne is None
        &&& self.autorite_externe is None
    }

    fn is_default(&self) -> (b: bool) {
        self.nom.is_default()
            && self.prenom.is_default()
            && self.autorite_interne.is_none()
            && self.autorite_externe.is_none()
    }
}

/// `tef:rapporteur`: referee who reports on the thesis.
#[derive(Debug, Clone, PartialEq)]
pub struct Rapporteur {
    /// Child element `nom`.
    pub nom: Nom,
    /// Child element `prenom`.
    pub prenom: Prenom,
    /// Child elements `autoriteInterne`.
    pub autorite_interne: Option<Vec<AutoriteInterne>>,
    /// Child elements `autoriteExterne`.
    pub autorite_externe: Option<Vec<AutoriteExterne>>,
}

impl Rapporteur {
    pub fn nom(&self) -> (r: &Nom)
        ensures
            *r == self.nom,
    {
        &self.nom
    }

    pub fn prenom(&self) -> (r: &Prenom)
        ensures
            *r == self.prenom,
    {
        &self.prenom
    }

    pub fn autorite_interne(&self) -> (r: &Option<Vec<AutoriteInterne>>)
        ensures
            *r == self.autorite_interne,
    {
        &self.autorite_interne
    }

    pub fn autorite_externe(&self) -> (r: &Option<Vec<AutoriteExterne>>)
        ensures
            *r == self.autorite_externe,
    {
        &self.autorite_externe
    }
}

impl Default for Rapporteur {
    fn default() -> (r: Self)
        ensures
            r.is_zero(),
    {
        Rapporteur {
            nom: Nom::default(),
            prenom: Prenom::default(),
            autorite_interne: None,
            autorite_externe: None,
        }
    }
}

impl Tolerant for Rapporteur {
    open spec fn is_zero(&self) -> bool {
        &&& self.nom.is_zero()
        &&& self.prenom.is_zero()
        &&& self.autorite_interne is None
        &&& self.autorite_externe is None
    }

    fn is_default(&self) -> (b: bool) {
        self.nom.is_default()
            && self.prenom.is_default()
            && self.autorite_interne.is_none()
            && self.autorite_externe.is_none()
    }
}

/// `tef:ressourceExterneDescription`: description of an external resource: any Dublin Core
/// elements, by name.
#[derive(Debug, Clone, PartialEq)]
pub struct RessourceExterneDescription(pub HashMap<String, String>);

impl Default for RessourceExterneDescription {
    fn default() -> (r: Self)
        ensures
            r.is_zero(),
    {
        RessourceExterneDescription(HashMap::new())
    }
}

impl Tolerant for RessourceExterneDescription {
    open spec fn is_zero(&self) -> bool {
        self.0@.is_empty()
    }

    fn is_default(&self) -> (b: bool) {
        self.0.is_empty()
    }
}

/// `tef:ressourceID`: identifier of an external resource left out of a redacted version.
#[derive(Debug, Clone, PartialEq)]
pub struct RessourceID(pub String);

impl Default for RessourceID {
    fn default() -> (r: Self)
        ensures
            r.is_zero(),
    {
        RessourceID(String::new())
    }
}

impl Tolerant for RessourceID {
    open spec fn is_zero(&self) -> bool {
        self.0@.len() == 0
    }

    fn is_default(&self) -> (b: bool) {
        self.0.as_str().is_empty()
    }
}

/// `tef:structureFichier`: structure of a file.
#[derive(Debug, Clone, PartialEq)]
pub struct StructureFichier(pub String);

impl Default for StructureFichier {
    fn default() -> (r: Self)
        ensures
            r.is_zero(),
    {
        StructureFichier(String::new())
    }
}

impl Tolerant for StructureFichier {
    open spec fn is_zero(&self) -> bool {
        self.0@.len() == 0
    }

    fn is_default(&self) -> (b: bool) {
        self.0.as_str().is_empty()
    }
}

/// `tef:subdivision`: qualifier of a subject heading.
#[derive(Debug, PartialEq)]
pub struct Subdivision {
    /// Attribute `autoriteSource`.
    pub autorite_source: Option<String>,
    /// Attribute `autoriteExterne`.
    pub autorite_externe: Option<String>,
    /// Attribute `type`.
    pub type_: String,
    /// Text content.
    pub text: String,
}

impl Subdivision {
    pub fn autorite_source(&self) -> (r: &Option<String>)
        ensures
            *r == self.autorite_source,
    {
        &self.autorite_source
    }

    pub fn autorite_externe(&self) -> (r: &Option<String>)
        ensures
            *r == self.autorite_externe,
    {
        &self.autorite_externe
    }

    pub fn type_(&self) -> (r: &String)
        ensures
            *r == self.type_,
    {
        &self.type_
    }

    pub fn text(&self) -> (r: &String)
        ensures
            *r == self.text,
    {
        &self.text
    }
}

impl Default for Subdivision {
    fn default() -> (r: Self)
        ensures
            r.is_zero(),
    {
        Subdivision {
            autorite_source: None,
            autorite_externe: None,
            type_: String::new(),
            text: String::new(),
        }
    }
}

impl Tolerant for Subdivision {
    open spec fn is_zero(&self) -> bool {
        &&& self.autorite_source is None
        &&& self.autorite_externe is None
        &&& self.type_@.len() == 0
        &&& self.text@.len() == 0
    }

    fn is_default(&self) -> (b: bool) {
        self.autorite_source.is_none()
            && self.autorite_externe.is_none()
            && self.type_.as_str().is_empty()
            && self.text.as_str().is_empty()
    }
}

impl Clone for Subdivision {
    fn clone(&self) -> (r: Self)
        ensures
            r == *self,
    {
        Subdivision {
            autorite_source: self.autorite_source.clone(),
            autorite_externe: self.autorite_externe.clone(),
            type_: self.type_.clone(),
            text: self.text.clone(),
        }
    }
}

/// `tef:sujetRameau`: subject headings of the thesis.
#[derive(Debug, Clone, PartialEq)]
pub struct SujetRameau {
    /// Child elements.
    pub values: Vec<Option<SujetRameauValues>>,
}

impl SujetRameau {
    pub fn values(&self) -> (r: &Vec<Option<SujetRameauValues>>)
        ensures
            *r == self.values,
    {
        &self.values
    }
}

impl Default for SujetRameau {
    fn default() -> (r: Self)
        ensures
            r.is_zero(),
    {
        SujetRameau {
            values: Vec::new(),
        }
    }
}

impl Tolerant for SujetRameau {
    open spec fn is_zero(&self) -> bool {
        self.values@.len() == 0
    }

    fn is_default(&self) -> (b: bool) {
        self.values.len() == 0
    }
}

/// The eight kinds of subject heading. Each holds an entry term and its qualifiers.
#[derive(Debug, Clone, PartialEq)]
pub enum SujetRameauValues {
    /// Element `vedetteRameauPersonne`.
    VedetteRameauPersonne(VedetteRameauPersonne),
    /// Element `vedetteRameauCollectivite`.
    VedetteRameauCollectivite(VedetteRameauCollectivite),
    /// Element `vedetteRameauFamille`.
    VedetteRameauFamille(VedetteRameauFamille),
    /// Element `vedetteRameauAuteurTitre`.
    VedetteRameauAuteurTitre(VedetteRameauAuteurTitre),
    /// Element `vedetteRameauTitre`.
    VedetteRameauTitre(VedetteRameauTitre),
    /// Element `vedetteRameauNomCommun`.
    VedetteRameauNomCommun(VedetteRameauNomCommun),
    /// Element `vedetteRameauNomGeographique`.
    VedetteRameauNomGeographique(VedetteRameauNomGeographique),
    /// Element `vedetteRameauGenreForme`.
    VedetteRameauGenreForme(VedetteRameauGenreForme),
}

/// `tef:vedetteRameauPersonne`: subject heading for a physical person.
#[derive(Debug, Clone, PartialEq)]
pub struct VedetteRameauPersonne {
    /// Child element `elementdEntree`.
    pub element_entree: ElementdEntree,
    /// Child elements `subdivision`.
    pub subdivision: Option<Vec<Subdivision>>,
}

impl VedetteRameauPersonne {
    pub fn element_entree(&self) -> (r: &ElementdEntree)
        ensures
            *r == self.element_entree,
    {
        &self.element_entree
    }

    pub fn subdivision(&self) -> (r: &Option<Vec<Subdivision>>)
        ensures
            *r == self.subdivision,
    {
        &self.subdivision
    }
}

impl Default for VedetteRameauPersonne {
    fn default() -> (r: Self)
        ensures
            r.is_zero(),
    {
        VedetteRameauPersonne {
            element_entree: ElementdEntree::default(),
            subdivision: None,
        }
    }
}

impl Tolerant for VedetteRameauPersonne {
    open spec fn is_zero(&self) -> bool {
        &&& self.element_entree.is_zero()
        &&& self.subdivision is None
    }

    fn is_default(&self) -> (b: bool) {
        self.element_entree.is_default()
            && self.subdivision.is_none()
    }
}

/// `tef:vedetteRameauCollectivite`: subject heading for a legal person or a congress.
#[derive(Debug, Clone, PartialEq)]
pub struct VedetteRameauCollectivite {
    /// Child element `elementdEntree`.
    pub element_entree: ElementdEntree,
    /// Child elements `subdivision`.
    pub subdivision: Option<Vec<Subdivision>>,
}

impl VedetteRameauCollectivite {
    pub fn element_entree(&self) -> (r: &ElementdEntree)
        ensures
            *r == self.element_entree,
    {
        &self.element_entree
    }

    pub fn subdivision(&self) -> (r: &Option<Vec<Subdivision>>)
        ensures
            *r == self.subdivision,
    {
        &self.subdivision
    }
}

impl Default for VedetteRameauCollectivite {
    fn default() -> (r: Self)
        ensures
            r.is_zero(),
    {
        VedetteRameauCollectivite {
            element_entree: ElementdEntree::default(),
            subdivision: None,
        }
    }
}

impl Tolerant for VedetteRameauCollectivite {
    open spec fn is_zero(&self) -> bool {
        &&& self.element_entree.is_zero()
        &&& self.subdivision is None
    }

    fn is_default(&self) -> (b: bool) {
        self.element_entree.is_default()
            && self.subdivision.is_none()
    }
}

/// `tef:vedetteRameauFamille`: subject heading for a family.
#[derive(Debug, Clone, PartialEq)]
pub struct VedetteRameauFamille {
    /// Child element `elementdEntree`.
    pub element_entree: ElementdEntree,
    /// Child elements `subdivision`.
    pub subdivision: Option<Vec<Subdivision>>,
}

impl VedetteRameauFamille {
    pub fn element_entree(&self) -> (r: &ElementdEntree)
        ensures
            *r == self.element_entree,
    {
        &self.element_entree
    }

    pub fn subdivision(&self) -> (r: &Option<Vec<Subdivision>>)
        ensures
            *r == self.subdivision,
    {
        &self.subdivision
    }
}

impl Default for VedetteRameauFamille {
    fn default() -> (r: Self)
        ensures
            r.is_zero(),
    {
        VedetteRameauFamille {
            element_entree: ElementdEntree::default(),
            subdivision: None,
        }
    }
}

impl Tolerant for VedetteRameauFamille {
    open spec fn is_zero(&self) -> bool {
        &&& self.element_entree.is_zero()
        &&& self.subdivision is None
    }

    fn is_default(&self) -> (b: bool) {
        self.element_entree.is_default()
            && self.subdivision.is_none()
    }
}

/// `tef:vedetteRameauAuteurTitre`: subject heading for a work and its author.
#[derive(Debug, Clone, PartialEq)]
pub struct VedetteRameauAuteurTitre {
    /// Child element `elementdEntree`.
    pub element_entree: ElementdEntree,
    /// Child elements `subdivision`.
    pub subdivision: Option<Vec<Subdivision>>,
}

impl VedetteRameauAuteurTitre {
    pub fn element_entree(&self) -> (r: &ElementdEntree)
        ensures
            *r == self.element_entree,
    {
        &self.element_entree
    }

    pub fn subdivision(&self) -> (r: &Option<Vec<Subdivision>>)
        ensures
            *r == self.subdivision,
    {
        &self.subdivision
    }
}

impl Default for VedetteRameauAuteurTitre {
    fn default() -> (r: Self)
        ensures
            r.is_zero(),
    {
        VedetteRameauAuteurTitre {
            element_entree: ElementdEntree::default(),
            subdivision: None,
        }
    }
}

impl Tolerant for VedetteRameauAuteurTitre {
    open spec fn is_zero(&self) -> bool {
        &&& self.element_entree.is_zero()
        &&& self.subdivision is None
    }

    fn is_default(&self) -> (b: bool) {
        self.element_entree.is_default()
            && self.subdivision.is_none()
    }
}

/// `tef:vedetteRameauTitre`: subject heading for a work.
#[derive(Debug, Clone, PartialEq)]
pub struct VedetteRameauTitre {
    /// Child element `elementdEntree`.
    pub element_entree: ElementdEntree,
    /// Child elements `subdivision`.
    pub subdivision: Option<Vec<Subdivision>>,
}

impl VedetteRameauTitre {
    pub fn element_entree(&self) -> (r: &ElementdEntree)
        ensures
            *r == self.element_entree,
    {
        &self.element_entree
    }

    pub fn subdivision(&self) -> (r: &Option<Vec<Subdivision>>)
        ensures
            *r == self.subdivision,
    {
        &self.subdivision
    }
}

impl Default for VedetteRameauTitre {
    fn default() -> (r: Self)
        ensures
            r.is_zero(),
    {
        VedetteRameauTitre {
            element_entree: ElementdEntree::default(),
            subdivision: None,
        }
    }
}

impl Tolerant for VedetteRameauTitre {
    open spec fn is_zero(&self) -> bool {
        &&& self.element_entree.is_zero()
        &&& self.subdivision is None
    }

    fn is_default(&self) -> (b: bool) {
        self.element_entree.is_default()
            && self.subdivision.is_none()
    }
}

/// `tef:vedetteRameauNomCommun`: subject heading for a common noun.
#[derive(Debug, Clone, PartialEq)]
pub struct VedetteRameauNomCommun {
    /// Child element `elementdEntree`.
    pub element_entree: ElementdEntree,
    /// Child elements `subdivision`.
    pub subdivision: Option<Vec<Subdivision>>,
}

impl VedetteRameauNomCommun {
    pub fn element_entree(&self) -> (r: &ElementdEntree)
        ensures
            *r == self.element_entree,
    {
        &self.element_entree
    }

    pub fn subdivision(&self) -> (r: &Option<Vec<Subdivision>>)
        ensures
            *r == self.subdivision,
    {
        &self.subdivision
    }
}

impl Default for VedetteRameauNomCommun {
    fn default() -> (r: Self)
        ensures
            r.is_zero(),
    {
        VedetteRameauNomCommun {
            element_entree: ElementdEntree::default(),
            subdivision: None,
        }
    }
}

impl Tolerant for VedetteRameauNomCommun {
    open spec fn is_zero(&self) -> bool {
        &&& self.element_entree.is_zero()
        &&& self.subdivision is None
    }

    fn is_default(&self) -> (b: bool) {
        self.element_entree.is_default()
            && self.subdivision.is_none()
    }
}

/// `tef:vedetteRameauNomGeographique`: subject heading for a geographical entity.
#[derive(Debug, Clone, PartialEq)]
pub struct VedetteRameauNomGeographique {
    /// Child element `elementdEntree`.
    pub element_entree: ElementdEntree,
    /// Child elements `subdivision`.
    pub subdivision: Option<Vec<Subdivision>>,
}

impl VedetteRameauNomGeographique {
    pub fn element_entree(&self) -> (r: &ElementdEntree)
        ensures
            *r == self.element_entree,
    {
        &self.element_entree
    }

    pub fn subdivision(&self) -> (r: &Option<Vec<Subdivision>>)
        ensures
            *r == self.subdivision,
    {
        &self.subdivision
    }
}

impl Default for VedetteRameauNomGeographique {
    fn default() -> (r: Self)
        ensures
            r.is_zero(),
    {
        VedetteRameauNomGeographique {
            element_entree: ElementdEntree::default(),
            subdivision: None,
        }
    }
}

impl Tolerant for VedetteRameauNomGeographique {
    open spec fn is_zero(&self) -> bool {
        &&& self.element_entree.is_zero()
        &&& self.subdivision is None
    }

    fn is_default(&self) -> (b: bool) {
        self.element_entree.is_default()
            && self.subdivision.is_none()
    }
}

/// `tef:vedetteRameauGenreForme`: subject heading for a genre or form.
#[derive(Debug, Clone, PartialEq)]
pub struct VedetteRameauGenreForme {
    /// Child element `elementdEntree`.
    pub element_entree: ElementdEntree,
    /// Child elements `subdivision`.
    pub subdivision: Option<Vec<Subdivision>>,
}

impl VedetteRameauGenreForme {
    pub fn element_entree(&self) -> (r: &ElementdEntree)
        ensures
            *r == self.element_entree,
    {
        &self.element_entree
    }

    pub fn subdivision(&self) -> (r: &Option<Vec<Subdivision>>)
        ensures
            *r == self.subdivision,
    {
        &self.subdivision
    }
}

impl Default for VedetteRameauGenreForme {
    fn default() -> (r: Self)
        ensures
            r.is_zero(),
    {
        VedetteRameauGenreForme {
            element_entree: ElementdEntree::default(),
            subdivision: None,
        }
    }
}

impl Tolerant for VedetteRameauGenreForme {
    open spec fn is_zero(&self) -> bool {
        &&& self.element_entree.is_zero()
        &&& self.subdivision is None
    }

    fn is_default(&self) -> (b: bool) {
        self.element_entree.is_default()
            && self.subdivision.is_none()
    }
}

/// `tef:tailleFichier`: size of a file, in bytes.
#[derive(Debug, Clone, PartialEq)]
pub struct Taille(pub String);

impl Default for Taille {
    fn default() -> (r: Self)
        ensures
            r.is_zero(),
    {
        Taille(String::new())
    }
}

impl Tolerant for Taille {
    open spec fn is_zero(&self) -> bool {
        self.0@.len() == 0
    }

    fn is_default(&self) -> (b: bool) {
        self.0.as_str().is_empty()
    }
}

/// `tef:theseSurTravaux`: whether the thesis is made in part of articles published before the
/// defence.
#[derive(Debug, Clone, PartialEq)]
pub struct TheseSurTravaux(pub String);

impl Default for TheseSurTravaux {
    fn default() -> (r: Self)
        ensures
            r.is_zero(),
    {
        TheseSurTravaux(String::new())
    }
}

impl Tolerant for TheseSurTravaux {
    open spec fn is_zero(&self) -> bool {
        self.0@.len() == 0
    }

    fn is_default(&self) -> (b: bool) {
        self.0.as_str().is_empty()
    }
}

/// `tef:thesis.degree`: metadata of the degree awarded after the defence.
#[derive(Debug, Clone, PartialEq)]
pub struct ThesisDegree {
    /// Child element `thesis.degree.discipline`.
    pub discipline: ThesisDegreeDiscipline,
    /// Child elements `thesis.degree.grantor`.
    pub grantor: Vec<ThesisDegreeGrantor>,
    /// Child element `thesis.degree.level`.
    pub level: ThesisDegreeLevel,
    /// Child element `thesis.degree.name`.
    pub name: Option<ThesisDegreeName>,
    /// Child element `datePremiereInscriptionDoctorat`.
    pub date_premiere_inscription_doctorat: Option<DatePremiereInscriptionDoctorat>,
    /// Child element `dateInscriptionEtab`.
    pub date_inscription_etab: Option<DateInscriptionEtab>,
    /// Child element `contratDoctoral`.
    pub contrat_doctoral: Option<String>,
}

impl ThesisDegree {
    pub fn discipline(&self) -> (r: &ThesisDegreeDiscipline)
        ensures
            *r == self.discipline,
    {
        &self.discipline
    }

    pub fn grantor(&self) -> (r: &Vec<ThesisDegreeGrantor>)
        ensures
            *r == self.grantor,
    {
        &self.grantor
    }

    pub fn level(&self) -> (r: &ThesisDegreeLevel)
        ensures
            *r == self.level,
    {
        &self.level
    }

    pub fn name(&self) -> (r: &Option<ThesisDegreeName>)
        ensures
            *r == self.name,
    {
        &self.name
    }

    pub fn date_premiere_inscription_doctorat(&self) -> (r: &Option<
        DatePremiereInscriptionDoctorat,
    >)
        ensures
            *r == self.date_premiere_inscription_doctorat,
    {
        &self.date_premiere_inscription_doctorat
    }

    pub fn date_inscription_etab(&self) -> (r: &Option<DateInscriptionEtab>)
        ensures
            *r == self.date_inscription_etab,
    {
        &self.date_inscription_etab
    }

    pub fn contrat_doctoral(&self) -> (r: &Option<String>)
        ensures
            *r == self.contrat_doctoral,
    {
        &self.contrat_doctoral
    }
}

impl Default for ThesisDegree {
    fn default() -> (r: Self)
        ensures
            r.is_zero(),
    {
        ThesisDegree {
            discipline: ThesisDegreeDiscipline::default(),
            grantor: Vec::new(),
            level: ThesisDegreeLevel::default(),
            name: None,
            date_premiere_inscription_doctorat: None,
            date_inscription_etab: None,
            contrat_doctoral: None,
        }
    }
}

impl Tolerant for ThesisDegree {
    open spec fn is_zero(&self) -> bool {
        &&& self.discipline.is_zero()
        &&& self.grantor@.len() == 0
        &&& self.level.is_zero()
        &&& self.name is None
        &&& self.date_premiere_inscription_doctorat is None
        &&& self.date_inscription_etab is None
        &&& self.contrat_doctoral is None
    }

    fn is_default(&self) -> (b: bool) {
        self.discipline.is_default()
            && self.grantor.len() == 0
            && self.level.is_default()
            && self.name.is_none()
            && self.date_premiere_inscription_doctorat.is_none()
            && self.date_inscription_etab.is_none()
            && self.contrat_doctoral.is_none()
    }
}

/// `tef:thesis.degree.discipline`: discipline of the thesis.
#[derive(Debug, Clone, PartialEq)]
pub struct ThesisDegreeDiscipline {
    /// Attribute `lang`.
    pub lang: String,
    /// Text content.
    pub text: String,
}

impl ThesisDegreeDiscipline {
    pub fn lang(&self) -> (r: &String)
        ensures
            *r == self.lang,
    {
        &self.lang
    }

    pub fn text(&self) -> (r: &String)
        ensures
            *r == self.text,
    {
        &self.text
    }
}

impl Default for ThesisDegreeDiscipline {
    fn default() -> (r: Self)
        ensures
            r.is_zero(),
    {
        ThesisDegreeDiscipline {
            lang: String::new(),
            text: String::new(),
        }
    }
}

impl Tolerant for ThesisDegreeDiscipline {
    open spec fn is_zero(&self) -> bool {
        &&& self.lang@.len() == 0
        &&& self.text@.len() == 0
    }

    fn is_default(&self) -> (b: bool) {
        self.lang.as_str().is_empty()
            && self.text.as_str().is_empty()
    }
}

/// `tef:thesis.degree.grantor`: institution where the thesis was defended.
#[derive(Debug, Clone, PartialEq)]
pub struct ThesisDegreeGrantor {
    /// Child element `nom`.
    pub nom: Nom,
    /// Child elements `autoriteInterne`.
    pub autorite_interne: Option<Vec<AutoriteInterne>>,
    /// Child elements `autoriteExterne`.
    pub autorite_externe: Option<Vec<AutoriteExterne>>,
}

impl ThesisDegreeGrantor {
    pub fn nom(&self) -> (r: &Nom)
        ensures
            *r == self.nom,
    {
        &self.nom
    }

    pub fn autorite_interne(&self) -> (r: &Option<Vec<AutoriteInterne>>)
        ensures
            *r == self.autorite_interne,
    {
        &self.autorite_interne
    }

    pub fn autorite_externe(&self) -> (r: &Option<Vec<AutoriteExterne>>)
        ensures
            *r == self.autorite_externe,
    {
        &self.autorite_externe
    }
}

impl Default for ThesisDegreeGrantor {
    fn default() -> (r: Self)
        ensures
            r.is_zero(),
    {
        ThesisDegreeGrantor {
            nom: Nom::default(),
            autorite_interne: None,
            autorite_externe: None,
        }
    }
}

impl Tolerant for ThesisDegreeGrantor {
    open spec fn is_zero(&self) -> bool {
        &&& self.nom.is_zero()
        &&& self.autorite_interne is None
        &&& self.autorite_externe is None
    }

    fn is_default(&self) -> (b: bool) {
        self.nom.is_default()
            && self.autorite_interne.is_none()
            && self.autorite_externe.is_none()
    }
}

/// `tef:thesis.degree.level`: kind of doctorate awarded.
#[derive(Debug, Clone, PartialEq)]
pub struct ThesisDegreeLevel {
    /// Text content.
    pub text: ThesisDegreeLevelValues,
}

impl ThesisDegreeLevel {
    pub fn text(&self) -> (r: &ThesisDegreeLevelValues)
        ensures
            *r == self.text,
    {
        &self.text
    }
}

impl Default for ThesisDegreeLevel {
    fn default() -> (r: Self)
        ensures
            r.is_zero(),
    {
        ThesisDegreeLevel {
            text: ThesisDegreeLevelValues::default(),
        }
    }
}

impl Tolerant for ThesisDegreeLevel {
    open spec fn is_zero(&self) -> bool {
        self.text.is_zero()
    }

    fn is_default(&self) -> (b: bool) {
        self.text.is_default()
    }
}

/// The kinds of doctorate that [`ThesisDegreeLevel`] can name.
#[derive(Debug, Clone, PartialEq)]
pub enum ThesisDegreeLevelValues {
    /// Value `Doctorat d'Etat`.
    DoctoratEtat,
    /// Value `Doctorat`.
    Doctorat,
    /// Value `Doctorat de troisième cycle`.
    Doctorat3eCycle,
}

impl Default for ThesisDegreeLevelValues {
    fn default() -> (r: Self)
        ensures
            r.is_zero(),
    {
        ThesisDegreeLevelValues::Doctorat
    }
}

impl Tolerant for ThesisDegreeLevelValues {
    open spec fn is_zero(&self) -> bool {
        *self is Doctorat
    }

    fn is_default(&self) -> (b: bool) {
        matches!(self, ThesisDegreeLevelValues::Doctorat)
    }
}

/// `tef:thesis.degree.name`: title awarded.
#[derive(Debug, Clone, PartialEq)]
pub struct ThesisDegreeName(pub String);

impl Default for ThesisDegreeName {
    fn default() -> (r: Self)
        ensures
            r.is_zero(),
    {
        ThesisDegreeName(String::new())
    }
}

impl Tolerant for ThesisDegreeName {
    open spec fn is_zero(&self) -> bool {
        self.0@.len() == 0
    }

    fn is_default(&self) -> (b: bool) {
        self.0.as_str().is_empty()
    }
}

/// `tef:thesisAdmin`: administrative metadata of the thesis.
#[derive(Debug, Clone, PartialEq)]
pub struct ThesisAdmin {
    /// Child element `auteur`.
    pub auteur: Auteur,
    /// Child elements `identifier`.
    pub identifier: Vec<Identifier>,
    /// Child element `dateAccepted`.
    pub date_accepted: DateAccepted,
    /// Child element `thesis.degree`.
    pub thesis_degree: ThesisDegree,
    /// Child element `theseSurTravaux`.
    pub these_sur_travaux: TheseSurTravaux,
    /// Child element `avisJury`.
    pub avis_jury: AvisJury,
    /// Child elements `directeurThese`.
    pub directeur_these: Vec<DirecteurThese>,
    /// Child element `presidentJury`.
    pub president_jury: Option<PresidentJury>,
    /// Child elements `membreJury`.
    pub membre_jury: Vec<MembreJury>,
    /// Child elements `rapporteur`.
    pub rapporteur: Vec<Rapporteur>,
    /// Child elements `ecoleDoctorale`.
    pub ecole_doctorale: Vec<EcoleDoctorale>,
    /// Child elements `partenaireRecherche`.
    pub partenaire_recherche: Vec<PartenaireRecherche>,
    /// Child elements `oaiSetSpec`.
    pub oai_set_spec: Vec<OaiSetSpec>,
    /// Child elements `MADSAuthority`.
    pub mads_authority: Option<Vec<MADSAuthority>>,
    /// Child element `vie`.
    pub vie: Vie,
}

impl ThesisAdmin {
    pub fn auteur(&self) -> (r: &Auteur)
        ensures
            *r == self.auteur,
    {
        &self.auteur
    }

    pub fn identifier(&self) -> (r: &Vec<Identifier>)
        ensures
            *r == self.identifier,
    {
        &self.identifier
    }

    pub fn date_accepted(&self) -> (r: &DateAccepted)
        ensures
            *r == self.date_accepted,
    {
        &self.date_accepted
    }

    pub fn thesis_degree(&self) -> (r: &ThesisDegree)
        ensures
            *r == self.thesis_degree,
    {
        &self.thesis_degree
    }

    pub fn these_sur_travaux(&self) -> (r: &TheseSurTravaux)
        ensures
            *r == self.these_sur_travaux,
    {
        &self.these_sur_travaux
    }

    pub fn avis_jury(&self) -> (r: &AvisJury)
        ensures
            *r == self.avis_jury,
    {
        &self.avis_jury
    }

    pub fn directeur_these(&self) -> (r: &Vec<DirecteurThese>)
        ensures
            *r == self.directeur_these,
    {
        &self.directeur_these
    }

    pub fn president_jury(&self) -> (r: &Option<PresidentJury>)
        ensures
            *r == self.president_jury,
    {
        &self.president_jury
    }

    pub fn membre_jury(&self) -> (r: &Vec<MembreJury>)
        ensures
            *r == self.membre_jury,
    {
        &self.membre_jury
    }

    pub fn rapporteur(&self) -> (r: &Vec<Rapporteur>)
        ensures
            *r == self.rapporteur,
    {
        &self.rapporteur
    }

    pub fn ecole_doctorale(&self) -> (r: &Vec<EcoleDoctorale>)
        ensures
            *r == self.ecole_doctorale,
    {
        &self.ecole_doctorale
    }

    pub fn partenaire_recherche(&self) -> (r: &Vec<PartenaireRecherche>)
        ensures
            *r == self.partenaire_recherche,
    {
        &self.partenaire_recherche
    }

    pub fn oai_set_spec(&self) -> (r: &Vec<OaiSetSpec>)
        ensures
            *r == self.oai_set_spec,
    {
        &self.oai_set_spec
    }

    pub fn mads_authority(&self) -> (r: &Option<Vec<MADSAuthority>>)
        ensures
            *r == self.mads_authority,
    {
        &self.mads_authority
    }

    pub fn vie(&self) -> (r: &Vie)
        ensures
            *r == self.vie,
    {
        &self.vie
    }
}

impl Default for ThesisAdmin {
    fn default() -> (r: Self)
        ensures
            r.is_zero(),
    {
        ThesisAdmin {
            auteur: Auteur::default(),
            identifier: Vec::new(),
            date_accepted: DateAccepted::default(),
            thesis_degree: ThesisDegree::default(),
            these_sur_travaux: TheseSurTravaux::default(),
            avis_jury: AvisJury::default(),
            directeur_these: Vec::new(),
            president_jury: None,
            membre_jury: Vec::new(),
            rapporteur: Vec::new(),
            ecole_doctorale: Vec::new(),
            partenaire_recherche: Vec::new(),
            oai_set_spec: Vec::new(),
            mads_authority: None,
            vie: Vie::default(),
        }
    }
}

impl Tolerant for ThesisAdmin {
    open spec fn is_zero(&self) -> bool {
        &&& self.auteur.is_zero()
        &&& self.identifier@.len() == 0
        &&& self.date_accepted.is_zero()
        &&& self.thesis_degree.is_zero()
        &&& self.these_sur_travaux.is_zero()
        &&& self.avis_jury.is_zero()
        &&& self.directeur_these@.len() == 0
        &&& self.president_jury is None
        &&& self.membre_jury@.len() == 0
        &&& self.rapporteur@.len() == 0
        &&& self.ecole_doctorale@.len() == 0
        &&& self.partenaire_recherche@.len() == 0
        &&& self.oai_set_spec@.len() == 0
        &&& self.mads_authority is None
        &&& self.vie.is_zero()
    }

    fn is_default(&self) -> (b: bool) {
        self.auteur.is_default()
            && self.identifier.len() == 0
            && self.date_accepted.is_default()
            && self.thesis_degree.is_default()
            && self.these_sur_travaux.is_default()
            && self.avis_jury.is_default()
            && self.directeur_these.len() == 0
            && self.president_jury.is_none()
            && self.membre_jury.len() == 0
            && self.rapporteur.len() == 0
            && self.ecole_doctorale.len() == 0
            && self.partenaire_recherche.len() == 0
            && self.oai_set_spec.len() == 0
            && self.mads_authority.is_none()
            && self.vie.is_default()
    }
}

/// `tef:datePremiereInscriptionDoctorat`: date of the first enrolment for a doctorate.
#[derive(Debug, Clone, PartialEq)]
pub struct DatePremiereInscriptionDoctorat {
    /// Attribute `type`.
    pub type_: Option<String>,
    /// Text content.
    pub text: String,
}

impl DatePremiereInscriptionDoctorat {
    pub fn type_(&self) -> (r: &Option<String>)
        ensures
            *r == self.type_,
    {
        &self.type_
    }

    pub fn text(&self) -> (r: &String)
        ensures
            *r == self.text,
    {
        &self.text
    }
}

impl Default for DatePremiereInscriptionDoctorat {
    fn default() -> (r: Self)
        ensures
            r.is_zero(),
    {
        DatePremiereInscriptionDoctorat {
            type_: None,
            text: String::new(),
        }
    }
}

impl Tolerant for DatePremiereInscriptionDoctorat {
    open spec fn is_zero(&self) -> bool {
        &&& self.type_ is None
        &&& self.text@.len() == 0
    }

    fn is_default(&self) -> (b: bool) {
        self.type_.is_none()
            && self.text.as_str().is_empty()
    }
}

/// `tef:dateInscriptionEtab`: date of enrolment at the institution.
#[derive(Debug, Clone, PartialEq)]
pub struct DateInscriptionEtab {
    /// Attribute `type`.
    pub type_: Option<String>,
    /// Text content.
    pub text: String,
}

impl DateInscriptionEtab {
    pub fn type_(&self) -> (r: &Option<String>)
        ensures
            *r == self.type_,
    {
        &self.type_
    }

    pub fn text(&self) -> (r: &String)
        ensures
            *r == self.text,
    {
        &self.text
    }
}

impl Default for DateInscriptionEtab {
    fn default() -> (r: Self)
        ensures
            r.is_zero(),
    {
        DateInscriptionEtab {
            type_: None,
            text: String::new(),
        }
    }
}

impl Tolerant for DateInscriptionEtab {
    open spec fn is_zero(&self) -> bool {
        &&& self.type_ is None
        &&& self.text@.len() == 0
    }

    fn is_default(&self) -> (b: bool) {
        self.type_.is_none()
            && self.text.as_str().is_empty()
    }
}

/// `tef:vie`: life of a thesis in preparation.
#[derive(Debug, Clone, PartialEq)]
pub struct Vie {
    /// Attribute `derogationDixAns`.
    pub derogation_dix_ans: String,
    /// Attribute `commentDixAns`.
    pub comment_dix_ans: Option<String>,
    /// Child element `soutenancePrevue`.
    pub soutenance_prevue: SoutenancePrevue,
    /// Child element `dateAbandon`.
    pub date_abandon: Option<String>,
}

impl Vie {
    pub fn derogation_dix_ans(&self) -> (r: &String)
        ensures
            *r == self.derogation_dix_ans,
    {
        &self.derogation_dix_ans
    }

    pub fn comment_dix_ans(&self) -> (r: &Option<String>)
        ensures
            *r == self.comment_dix_ans,
    {
        &self.comment_dix_ans
    }

    pub fn soutenance_prevue(&self) -> (r: &SoutenancePrevue)
        ensures
            *r == self.soutenance_prevue,
    {
        &self.soutenance_prevue
    }

    pub fn date_abandon(&self) -> (r: &Option<String>)
        ensures
            *r == self.date_abandon,
    {
        &self.date_abandon
    }
}

impl Default for Vie {
    fn default() -> (r: Self)
        ensures
            r.is_zero(),
    {
        Vie {
            derogation_dix_ans: String::new(),
            comment_dix_ans: None,
            soutenance_prevue: SoutenancePrevue::default(),
            date_abandon: None,
        }
    }
}

impl Tolerant for Vie {
    open spec fn is_zero(&self) -> bool {
        &&& self.derogation_dix_ans@.len() == 0
        &&& self.comment_dix_ans is None
        &&& self.soutenance_prevue.is_zero()
        &&& self.date_abandon is None
    }

    fn is_default(&self) -> (b: bool) {
        self.derogation_dix_ans.as_str().is_empty()
            && self.comment_dix_ans.is_none()
            && self.soutenance_prevue.is_default()
            && self.date_abandon.is_none()
    }
}

/// `tef:soutenancePrevue`: planned defence.
#[derive(Debug, Clone, PartialEq)]
pub struct SoutenancePrevue {
    /// Child element `datePrevue`.
    pub date_prevue: Option<String>,
    /// Child element `heurePrevue`.
    pub heure_prevue: Option<String>,
    /// Child element `lieuPrevue`.
    pub lieu_prevue: Option<String>,
}

impl SoutenancePrevue {
    pub fn date_prevue(&self) -> (r: &Option<String>)
        ensures
            *r == self.date_prevue,
    {
        &self.date_prevue
    }

    pub fn heure_prevue(&self) -> (r: &Option<String>)
        ensures
            *r == self.heure_prevue,
    {
        &self.heure_prevue
    }

    pub fn lieu_prevue(&self) -> (r: &Option<String>)
        ensures
            *r == self.lieu_prevue,
    {
        &self.lieu_prevue
    }
}

impl Default for SoutenancePrevue {
    fn default() -> (r: Self)
        ensures
            r.is_zero(),
    {
        SoutenancePrevue {
            date_prevue: None,
            heure_prevue: None,
            lieu_prevue: None,
        }
    }
}

impl Tolerant for SoutenancePrevue {
    open spec fn is_zero(&self) -> bool {
        &&& self.date_prevue is None
        &&& self.heure_prevue is None
        &&& self.lieu_prevue is None
    }

    fn is_default(&self) -> (b: bool) {
        self.date_prevue.is_none()
            && self.heure_prevue.is_none()
            && self.lieu_prevue.is_none()
    }
}

/// `tef:thesisRecord`: descriptive metadata of the thesis.
#[derive(Debug, Clone, PartialEq)]
pub struct ThesisRecord {
    /// Child elements `coverage`.
    pub coverage: Option<Vec<Coverage>>,
    /// Child element `title`.
    pub title: Title,
    /// Child elements `alternative`.
    pub alternative: Option<Vec<Alternative>>,
    /// Child elements `subject`.
    pub subject: Option<Vec<Subject>>,
    /// Child element `sujetRameau`.
    pub sujet_rameau: Option<SujetRameau>,
    /// Child elements `abstract`.
    pub abstract_: Option<Vec<Abstract>>,
    /// Child elements `type`.
    pub type_: Vec<Type>,
    /// Child elements `language`.
    pub language: Vec<Language>,
}

impl ThesisRecord {
    pub fn coverage(&self) -> (r: &Option<Vec<Coverage>>)
        ensures
            *r == self.coverage,
    {
        &self.coverage
    }

    pub fn title(&self) -> (r: &Title)
        ensures
            *r == self.title,
    {
        &self.title
    }

    pub fn alternative(&self) -> (r: &Option<Vec<Alternative>>)
        ensures
            *r == self.alternative,
    {
        &self.alternative
    }

    pub fn subject(&self) -> (r: &Option<Vec<Subject>>)
        ensures
            *r == self.subject,
    {
        &self.subject
    }

    pub fn sujet_rameau(&self) -> (r: &Option<SujetRameau>)
        ensures
            *r == self.sujet_rameau,
    {
        &self.sujet_rameau
    }

    pub fn abstract_(&self) -> (r: &Option<Vec<Abstract>>)
        ensures
            *r == self.abstract_,
    {
        &self.abstract_
    }

    pub fn type_(&self) -> (r: &Vec<Type>)
        ensures
            *r == self.type_,
    {
        &self.type_
    }

    pub fn language(&self) -> (r: &Vec<Language>)
        ensures
            *r == self.language,
    {
        &self.language
    }
}

impl Default for ThesisRecord {
    fn default() -> (r: Self)
        ensures
            r.is_zero(),
    {
        ThesisRecord {
            coverage: None,
            title: Title::default(),
            alternative: None,
            subject: None,
            sujet_rameau: None,
            abstract_: None,
            type_: Vec::new(),
            language: Vec::new(),
        }
    }
}

impl Tolerant for ThesisRecord {
    open spec fn is_zero(&self) -> bool {
        &&& self.coverage is None
        &&& self.title.is_zero()
        &&& self.alternative is None
        &&& self.subject is None
        &&& self.sujet_rameau is None
        &&& self.abstract_ is None
        &&& self.type_@.len() == 0
        &&& self.language@.len() == 0
    }

    fn is_default(&self) -> (b: bool) {
        self.coverage.is_none()
            && self.title.is_default()
            && self.alternative.is_none()
            && self.subject.is_none()
            && self.sujet_rameau.is_none()
            && self.abstract_.is_none()
            && self.type_.len() == 0
            && self.language.len() == 0
    }
}

/// `tef:version`: descriptive metadata of an incomplete version of the thesis.
#[derive(Debug, Clone, PartialEq)]
pub struct Version {
    /// Child elements `manque`.
    pub manque: Vec<Manque>,
    /// Child elements `replaces`.
    pub replaces: Vec<Replaces>,
}

impl Version {
    pub fn manque(&self) -> (r: &Vec<Manque>)
        ensures
            *r == self.manque,
    {
        &self.manque
    }

    pub fn replaces(&self) -> (r: &Vec<Replaces>)
        ensures
            *r == self.replaces,
    {
        &self.replaces
    }
}

impl Default for Version {
    fn default() -> (r: Self)
        ensures
            r.is_zero(),
    {
        Version {
            manque: Vec::new(),
            replaces: Vec::new(),
        }
    }
}

impl Tolerant for Version {
    open spec fn is_zero(&self) -> bool {
        &&& self.manque@.len() == 0
        &&& self.replaces@.len() == 0
    }

    fn is_default(&self) -> (b: bool) {
        self.manque.len() == 0
            && self.replaces.len() == 0
    }
}

/// What an optional text binds to: an empty text is the same as none.
pub fn empty_string_as_none(value: Option<String>) -> (r: Option<String>)
    ensures
        r == match value {
            Some(text) => if text@.len() == 0 {
                None
            } else {
                Some(text)
            },
            None => None,
        },
{
    match value {
        None => None,
        Some(text) => {
            if text.as_str().is_empty() {
                None
            } else {
                Some(text)
            }
        },
    }
}

} // verus!
