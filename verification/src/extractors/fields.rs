//! What each field asks of its occurrences, and where it occurs.
use crate::dc::{Identifier, Language, Subject, Title};
use crate::dcterms::{Abstract, Alternative, DateAccepted};
use crate::extractors::algebra::{
    offer, offer_all, offer_optional, offer_optional_all, offer_payloads, optional_many,
    optional_one, payloads, targets, Extract, Holds, Policy,
};
use crate::gestion::star::StarGestion;
use crate::gestion::step::StepGestion;
use crate::mets::{AmdSec, AmdSecValues, DmdSec, Mets, MetsValues, XmlDataValues};
use crate::tef::{
    Auteur, DirecteurThese, EcoleDoctorale, MembreJury, OaiSetSpec, PartenaireRecherche,
    PresidentJury, Rapporteur, Subdivision, SujetRameau, TheseSurTravaux, ThesisAdmin,
    ThesisDegreeDiscipline, ThesisDegreeGrantor, ThesisRecord,
};
use crate::tolerant::Tolerant;
use vstd::prelude::*;

verus! {

/// The descriptive section, if this is one.
impl Holds<DmdSec> for MetsValues {
    open spec fn payload(self) -> Option<DmdSec> {
        match self {
            MetsValues::DmdSec(section) => Some(section),
            _ => None,
        }
    }

    fn payload_ref(&self) -> (r: Option<&DmdSec>) {
        match self {
            MetsValues::DmdSec(section) => Some(section),
            _ => None,
        }
    }
}

/// The administrative section, if this is one.
impl Holds<AmdSec> for MetsValues {
    open spec fn payload(self) -> Option<AmdSec> {
        match self {
            MetsValues::AmdSec(section) => Some(section),
            _ => None,
        }
    }

    fn payload_ref(&self) -> (r: Option<&AmdSec>) {
        match self {
            MetsValues::AmdSec(section) => Some(section),
            _ => None,
        }
    }
}

/// The descriptive record, if the wrapper carries one.
impl Holds<ThesisRecord> for XmlDataValues {
    open spec fn payload(self) -> Option<ThesisRecord> {
        match self {
            XmlDataValues::ThesisRecord(record) => Some(record),
            _ => None,
        }
    }

    fn payload_ref(&self) -> (r: Option<&ThesisRecord>) {
        match self {
            XmlDataValues::ThesisRecord(record) => Some(record),
            _ => None,
        }
    }
}

/// The administrative record, if the wrapper carries one.
impl Holds<ThesisAdmin> for XmlDataValues {
    open spec fn payload(self) -> Option<ThesisAdmin> {
        match self {
            XmlDataValues::ThesisAdmin(record) => Some(record),
            _ => None,
        }
    }

    fn payload_ref(&self) -> (r: Option<&ThesisAdmin>) {
        match self {
            XmlDataValues::ThesisAdmin(record) => Some(record),
            _ => None,
        }
    }
}

/// The workflow record of the deposit system, if the wrapper carries one.
impl Holds<StarGestion> for XmlDataValues {
    open spec fn payload(self) -> Option<StarGestion> {
        match self {
            XmlDataValues::StarGestion(record) => Some(record),
            _ => None,
        }
    }

    fn payload_ref(&self) -> (r: Option<&StarGestion>) {
        match self {
            XmlDataValues::StarGestion(record) => Some(record),
            _ => None,
        }
    }
}

/// The workflow record of the registration system, if the wrapper carries one.
impl Holds<StepGestion> for XmlDataValues {
    open spec fn payload(self) -> Option<StepGestion> {
        match self {
            XmlDataValues::StepGestion(record) => Some(record),
            _ => None,
        }
    }

    fn payload_ref(&self) -> (r: Option<&StepGestion>) {
        match self {
            XmlDataValues::StepGestion(record) => Some(record),
            _ => None,
        }
    }
}

/// A technical block carries the administrative record that it wraps; a rights block carries
/// none.
impl Holds<ThesisAdmin> for AmdSecValues {
    open spec fn payload(self) -> Option<ThesisAdmin> {
        match self {
            AmdSecValues::TechMD(block) => Holds::<ThesisAdmin>::payload(block.value.value.value),
            AmdSecValues::RightsMD(_) => None,
        }
    }

    fn payload_ref(&self) -> (r: Option<&ThesisAdmin>) {
        match self {
            AmdSecValues::TechMD(block) => Holds::<ThesisAdmin>::payload_ref(
                &block.value.value.value,
            ),
            AmdSecValues::RightsMD(_) => None,
        }
    }
}

/// Appends to `out` the record of type `T` that `wrapper` carries, if it carries one that
/// counts.
pub fn offer_wrapped<'a, T: Policy>(wrapper: &'a XmlDataValues, out: &mut Vec<&'a T>) where
    XmlDataValues: Holds<T>,

    ensures
        targets(final(out)@) == targets(old(out)@) + optional_one(
            Holds::<T>::payload(*wrapper),
        ).filter(|c: T| c.counts()),
{
    match Holds::<T>::payload_ref(wrapper) {
        Some(record) => offer(record, out),
        None => {
            proof {
                reveal(Seq::filter);
                assert(targets(out@) =~= targets(old(out)@) + Seq::<T>::empty().filter(
                    |c: T| c.counts(),
                ));
            }
        },
    }
}

/// Counts when it is not the zero value.
impl Policy for DmdSec {
    open spec fn counts(self) -> bool {
        !self.is_zero()
    }

    fn qualifies(&self) -> (b: bool) {
        !self.is_default()
    }
}

/// Counts when it is not the zero value.
impl Policy for AmdSec {
    open spec fn counts(self) -> bool {
        !self.is_zero()
    }

    fn qualifies(&self) -> (b: bool) {
        !self.is_default()
    }
}

/// Counts when it is not the zero value.
impl Policy for ThesisAdmin {
    open spec fn counts(self) -> bool {
        !self.is_zero()
    }

    fn qualifies(&self) -> (b: bool) {
        !self.is_default()
    }
}

/// Counts when it is not the zero value.
impl Policy for ThesisRecord {
    open spec fn counts(self) -> bool {
        !self.is_zero()
    }

    fn qualifies(&self) -> (b: bool) {
        !self.is_default()
    }
}

/// Counts when it is not the zero value.
impl Policy for StarGestion {
    open spec fn counts(self) -> bool {
        !self.is_zero()
    }

    fn qualifies(&self) -> (b: bool) {
        !self.is_default()
    }
}

/// Counts when it is not the zero value.
impl Policy for StepGestion {
    open spec fn counts(self) -> bool {
        !self.is_zero()
    }

    fn qualifies(&self) -> (b: bool) {
        !self.is_default()
    }
}

/// Counts when it is not the zero value and its text is not empty.
impl Policy for DateAccepted {
    open spec fn counts(self) -> bool {
        !self.is_zero() && self.text@.len() > 0
    }

    fn qualifies(&self) -> (b: bool) {
        !self.is_default() && !self.text.as_str().is_empty()
    }
}

/// Counts when it is not the zero value.
impl Policy for Identifier {
    open spec fn counts(self) -> bool {
        !self.is_zero()
    }

    fn qualifies(&self) -> (b: bool) {
        !self.is_default()
    }
}

/// Counts when it is not the zero value; a discipline with a language and no text counts.
impl Policy for ThesisDegreeDiscipline {
    open spec fn counts(self) -> bool {
        !self.is_zero()
    }

    fn qualifies(&self) -> (b: bool) {
        !self.is_default()
    }
}

/// Counts when it is not the zero value and it has a name.
impl Policy for ThesisDegreeGrantor {
    open spec fn counts(self) -> bool {
        !self.is_zero() && !self.nom.is_zero()
    }

    fn qualifies(&self) -> (b: bool) {
        !self.is_default() && !self.nom.is_default()
    }
}

/// Counts when it is not the zero value.
impl Policy for TheseSurTravaux {
    open spec fn counts(self) -> bool {
        !self.is_zero()
    }

    fn qualifies(&self) -> (b: bool) {
        !self.is_default()
    }
}

/// Counts when it is not the zero value; an author without a name counts.
impl Policy for Auteur {
    open spec fn counts(self) -> bool {
        !self.is_zero()
    }

    fn qualifies(&self) -> (b: bool) {
        !self.is_default()
    }
}

/// Counts when it is not the zero value and its name is not empty.
impl Policy for DirecteurThese {
    open spec fn counts(self) -> bool {
        !self.is_zero() && self.nom.0@.len() > 0
    }

    fn qualifies(&self) -> (b: bool) {
        !self.is_default() && !self.nom.0.as_str().is_empty()
    }
}

/// Counts when it is not the zero value and its name is not empty.
impl Policy for Rapporteur {
    open spec fn counts(self) -> bool {
        !self.is_zero() && self.nom.0@.len() > 0
    }

    fn qualifies(&self) -> (b: bool) {
        !self.is_default() && !self.nom.0.as_str().is_empty()
    }
}

/// Counts when it is not the zero value and its name is not empty.
impl Policy for PresidentJury {
    open spec fn counts(self) -> bool {
        !self.is_zero() && self.nom.0@.len() > 0
    }

    fn qualifies(&self) -> (b: bool) {
        !self.is_default() && !self.nom.0.as_str().is_empty()
    }
}

/// Counts when it is not the zero value and its name is not empty.
impl Policy for MembreJury {
    open spec fn counts(self) -> bool {
        !self.is_zero() && self.nom.0@.len() > 0
    }

    fn qualifies(&self) -> (b: bool) {
        !self.is_default() && !self.nom.0.as_str().is_empty()
    }
}

/// Counts when it is not the zero value and its name is not empty.
impl Policy for EcoleDoctorale {
    open spec fn counts(self) -> bool {
        !self.is_zero() && self.nom.0@.len() > 0
    }

    fn qualifies(&self) -> (b: bool) {
        !self.is_default() && !self.nom.0.as_str().is_empty()
    }
}

/// Counts when it is not the zero value and its name is not empty.
impl Policy for PartenaireRecherche {
    open spec fn counts(self) -> bool {
        !self.is_zero() && self.nom.0@.len() > 0
    }

    fn qualifies(&self) -> (b: bool) {
        !self.is_default() && !self.nom.0.as_str().is_empty()
    }
}

/// Counts when it is not the zero value.
impl Policy for OaiSetSpec {
    open spec fn counts(self) -> bool {
        !self.is_zero()
    }

    fn qualifies(&self) -> (b: bool) {
        !self.is_default()
    }
}

/// Counts when it is not the zero value, and neither its text nor its language is empty.
impl Policy for Title {
    open spec fn counts(self) -> bool {
        !self.is_zero() && self.text@.len() > 0 && self.lang@.len() > 0
    }

    fn qualifies(&self) -> (b: bool) {
        !self.is_default()
            && !self.text.as_str().is_empty()
            && !self.lang.as_str().is_empty()
    }
}

/// Counts when it is not the zero value, and neither its text nor its language is empty.
impl Policy for Alternative {
    open spec fn counts(self) -> bool {
        !self.is_zero() && self.text@.len() > 0 && self.lang@.len() > 0
    }

    fn qualifies(&self) -> (b: bool) {
        !self.is_default()
            && !self.text.as_str().is_empty()
            && !self.lang.as_str().is_empty()
    }
}

/// Counts when it is not the zero value, and neither its text nor its language is empty.
impl Policy for Abstract {
    open spec fn counts(self) -> bool {
        !self.is_zero() && self.text@.len() > 0 && self.lang@.len() > 0
    }

    fn qualifies(&self) -> (b: bool) {
        !self.is_default()
            && !self.text.as_str().is_empty()
            && !self.lang.as_str().is_empty()
    }
}

/// Counts when it is not the zero value and its text is not empty; its language may be absent.
impl Policy for Subject {
    open spec fn counts(self) -> bool {
        !self.is_zero() && self.text@.len() > 0
    }

    fn qualifies(&self) -> (b: bool) {
        !self.is_default() && !self.text.as_str().is_empty()
    }
}

/// Counts when it is not the zero value.
impl Policy for Language {
    open spec fn counts(self) -> bool {
        !self.is_zero()
    }

    fn qualifies(&self) -> (b: bool) {
        !self.is_default()
    }
}

/// Counts when it is not the zero value.
impl Policy for SujetRameau {
    open spec fn counts(self) -> bool {
        !self.is_zero()
    }

    fn qualifies(&self) -> (b: bool) {
        !self.is_default()
    }
}

/// Counts when it is not the zero value.
impl Policy for Subdivision {
    open spec fn counts(self) -> bool {
        !self.is_zero()
    }

    fn qualifies(&self) -> (b: bool) {
        !self.is_default()
    }
}

/// Occurs as the descriptive sections at the top level of a document.
impl Extract for DmdSec {
    type Source = Mets;

    open spec fn occurrences(source: Mets) -> Seq<Self> {
        payloads::<MetsValues, DmdSec>(source.values@)
    }

    fn collect<'a>(source: &'a Mets, out: &mut Vec<&'a Self>) {
        offer_payloads(&source.values, out)
    }
}

/// Occurs as the administrative sections at the top level of a document.
impl Extract for AmdSec {
    type Source = Mets;

    open spec fn occurrences(source: Mets) -> Seq<Self> {
        payloads::<MetsValues, AmdSec>(source.values@)
    }

    fn collect<'a>(source: &'a Mets, out: &mut Vec<&'a Self>) {
        offer_payloads(&source.values, out)
    }
}

/// Occurs as the administrative records that the technical blocks of a section wrap; rights
/// blocks, and blocks that wrap something else, are passed over.
impl Extract for ThesisAdmin {
    type Source = AmdSec;

    open spec fn occurrences(source: AmdSec) -> Seq<Self> {
        payloads::<AmdSecValues, ThesisAdmin>(source.values@)
    }

    fn collect<'a>(source: &'a AmdSec, out: &mut Vec<&'a Self>) {
        offer_payloads(&source.values, out)
    }
}

/// Occurs as the descriptive record that a section wraps, if it wraps one.
impl Extract for ThesisRecord {
    type Source = DmdSec;

    open spec fn occurrences(source: DmdSec) -> Seq<Self> {
        optional_one(Holds::<ThesisRecord>::payload(source.value.value.value))
    }

    fn collect<'a>(source: &'a DmdSec, out: &mut Vec<&'a Self>) {
        offer_wrapped(&source.value.value.value, out)
    }
}

/// Occurs as the workflow record of the deposit system that a section wraps, if it wraps one.
impl Extract for StarGestion {
    type Source = DmdSec;

    open spec fn occurrences(source: DmdSec) -> Seq<Self> {
        optional_one(Holds::<StarGestion>::payload(source.value.value.value))
    }

    fn collect<'a>(source: &'a DmdSec, out: &mut Vec<&'a Self>) {
        offer_wrapped(&source.value.value.value, out)
    }
}

/// Occurs as the workflow record of the registration system that a section wraps, if it wraps
/// one.
impl Extract for StepGestion {
    type Source = DmdSec;

    open spec fn occurrences(source: DmdSec) -> Seq<Self> {
        optional_one(Holds::<StepGestion>::payload(source.value.value.value))
    }

    fn collect<'a>(source: &'a DmdSec, out: &mut Vec<&'a Self>) {
        offer_wrapped(&source.value.value.value, out)
    }
}

/// Occurs as the date of defence of an administrative record.
impl Extract for DateAccepted {
    type Source = ThesisAdmin;

    open spec fn occurrences(source: ThesisAdmin) -> Seq<Self> {
        seq![source.date_accepted]
    }

    fn collect<'a>(source: &'a ThesisAdmin, out: &mut Vec<&'a Self>) {
        offer(&source.date_accepted, out)
    }
}

/// Occurs as the identifiers of an administrative record.
impl Extract for Identifier {
    type Source = ThesisAdmin;

    open spec fn occurrences(source: ThesisAdmin) -> Seq<Self> {
        source.identifier@
    }

    fn collect<'a>(source: &'a ThesisAdmin, out: &mut Vec<&'a Self>) {
        offer_all(&source.identifier, out)
    }
}

/// Occurs as the discipline of the degree of an administrative record.
impl Extract for ThesisDegreeDiscipline {
    type Source = ThesisAdmin;

    open spec fn occurrences(source: ThesisAdmin) -> Seq<Self> {
        seq![source.thesis_degree.discipline]
    }

    fn collect<'a>(source: &'a ThesisAdmin, out: &mut Vec<&'a Self>) {
        offer(&source.thesis_degree.discipline, out)
    }
}

/// Occurs as the grantors of the degree of an administrative record.
impl Extract for ThesisDegreeGrantor {
    type Source = ThesisAdmin;

    open spec fn occurrences(source: ThesisAdmin) -> Seq<Self> {
        source.thesis_degree.grantor@
    }

    fn collect<'a>(source: &'a ThesisAdmin, out: &mut Vec<&'a Self>) {
        offer_all(&source.thesis_degree.grantor, out)
    }
}

/// Occurs as the mark of a thesis by publications of an administrative record.
impl Extract for TheseSurTravaux {
    type Source = ThesisAdmin;

    open spec fn occurrences(source: ThesisAdmin) -> Seq<Self> {
        seq![source.these_sur_travaux]
    }

    fn collect<'a>(source: &'a ThesisAdmin, out: &mut Vec<&'a Self>) {
        offer(&source.these_sur_travaux, out)
    }
}

/// Occurs as the author of an administrative record.
impl Extract for Auteur {
    type Source = ThesisAdmin;

    open spec fn occurrences(source: ThesisAdmin) -> Seq<Self> {
        seq![source.auteur]
    }

    fn collect<'a>(source: &'a ThesisAdmin, out: &mut Vec<&'a Self>) {
        offer(&source.auteur, out)
    }
}

/// Occurs as the supervisors of an administrative record.
impl Extract for DirecteurThese {
    type Source = ThesisAdmin;

    open spec fn occurrences(source: ThesisAdmin) -> Seq<Self> {
        source.directeur_these@
    }

    fn collect<'a>(source: &'a ThesisAdmin, out: &mut Vec<&'a Self>) {
        offer_all(&source.directeur_these, out)
    }
}

/// Occurs as the referees of an administrative record.
impl Extract for Rapporteur {
    type Source = ThesisAdmin;

    open spec fn occurrences(source: ThesisAdmin) -> Seq<Self> {
        source.rapporteur@
    }

    fn collect<'a>(source: &'a ThesisAdmin, out: &mut Vec<&'a Self>) {
        offer_all(&source.rapporteur, out)
    }
}

/// Occurs as the president of the jury of an administrative record, if it names one.
impl Extract for PresidentJury {
    type Source = ThesisAdmin;

    open spec fn occurrences(source: ThesisAdmin) -> Seq<Self> {
        optional_one(source.president_jury)
    }

    fn collect<'a>(source: &'a ThesisAdmin, out: &mut Vec<&'a Self>) {
        offer_optional(&source.president_jury, out)
    }
}

/// Occurs as the members of the jury of an administrative record.
impl Extract for MembreJury {
    type Source = ThesisAdmin;

    open spec fn occurrences(source: ThesisAdmin) -> Seq<Self> {
        source.membre_jury@
    }

    fn collect<'a>(source: &'a ThesisAdmin, out: &mut Vec<&'a Self>) {
        offer_all(&source.membre_jury, out)
    }
}

/// Occurs as the doctoral schools of an administrative record.
impl Extract for EcoleDoctorale {
    type Source = ThesisAdmin;

    open spec fn occurrences(source: ThesisAdmin) -> Seq<Self> {
        source.ecole_doctorale@
    }

    fn collect<'a>(source: &'a ThesisAdmin, out: &mut Vec<&'a Self>) {
        offer_all(&source.ecole_doctorale, out)
    }
}

/// Occurs as the research partners of an administrative record.
impl Extract for PartenaireRecherche {
    type Source = ThesisAdmin;

    open spec fn occurrences(source: ThesisAdmin) -> Seq<Self> {
        source.partenaire_recherche@
    }

    fn collect<'a>(source: &'a ThesisAdmin, out: &mut Vec<&'a Self>) {
        offer_all(&source.partenaire_recherche, out)
    }
}

/// Occurs as the OAI sets of an administrative record.
impl Extract for OaiSetSpec {
    type Source = ThesisAdmin;

    open spec fn occurrences(source: ThesisAdmin) -> Seq<Self> {
        source.oai_set_spec@
    }

    fn collect<'a>(source: &'a ThesisAdmin, out: &mut Vec<&'a Self>) {
        offer_all(&source.oai_set_spec, out)
    }
}

/// Occurs as the title of a descriptive record.
impl Extract for Title {
    type Source = ThesisRecord;

    open spec fn occurrences(source: ThesisRecord) -> Seq<Self> {
        seq![source.title]
    }

    fn collect<'a>(source: &'a ThesisRecord, out: &mut Vec<&'a Self>) {
        offer(&source.title, out)
    }
}

/// Occurs as the titles in other languages of a descriptive record, if it lists any.
impl Extract for Alternative {
    type Source = ThesisRecord;

    open spec fn occurrences(source: ThesisRecord) -> Seq<Self> {
        optional_many(source.alternative)
    }

    fn collect<'a>(source: &'a ThesisRecord, out: &mut Vec<&'a Self>) {
        offer_optional_all(&source.alternative, out)
    }
}

/// Occurs as the abstracts of a descriptive record, if it lists any.
impl Extract for Abstract {
    type Source = ThesisRecord;

    open spec fn occurrences(source: ThesisRecord) -> Seq<Self> {
        optional_many(source.abstract_)
    }

    fn collect<'a>(source: &'a ThesisRecord, out: &mut Vec<&'a Self>) {
        offer_optional_all(&source.abstract_, out)
    }
}

/// Occurs as the subjects of a descriptive record, if it lists any.
impl Extract for Subject {
    type Source = ThesisRecord;

    open spec fn occurrences(source: ThesisRecord) -> Seq<Self> {
        optional_many(source.subject)
    }

    fn collect<'a>(source: &'a ThesisRecord, out: &mut Vec<&'a Self>) {
        offer_optional_all(&source.subject, out)
    }
}

/// Occurs as the languages of a descriptive record.
impl Extract for Language {
    type Source = ThesisRecord;

    open spec fn occurrences(source: ThesisRecord) -> Seq<Self> {
        source.language@
    }

    fn collect<'a>(source: &'a ThesisRecord, out: &mut Vec<&'a Self>) {
        offer_all(&source.language, out)
    }
}

/// Occurs as the subject headings of a descriptive record, if it has any.
impl Extract for SujetRameau {
    type Source = ThesisRecord;

    open spec fn occurrences(source: ThesisRecord) -> Seq<Self> {
        optional_one(source.sujet_rameau)
    }

    fn collect<'a>(source: &'a ThesisRecord, out: &mut Vec<&'a Self>) {
        offer_optional(&source.sujet_rameau, out)
    }
}

} // verus!
