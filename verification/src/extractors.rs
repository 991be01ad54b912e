//! The accessors: one per domain field, each from the root of a document to a value, a
//! sequence of values, or the error that names the field that is missing.
//!
//! A document binds without error whatever it lacks, so what it lacks is found here. Every
//! accessor states which occurrences of its field count and how many it hands out; none fails
//! for anything but a mandatory field of which no occurrence counts.
pub mod algebra;
pub mod fields;
pub mod laws;

use crate::dc::{Identifier, Language, Subject, Title};
use crate::dcterms::{Abstract, Alternative, DateAccepted};
use crate::extractors::algebra::{
    all_or, at_most_one, exactly_one, first_or, kept, maybe_all, maybe_first, one_or_more,
    optional_many, optional_value_of, optional_values_of, selected, survivors, surviving, targets,
    value_of, values_of, zero_or_more, Extract, Policy,
};
use crate::gestion::star::StarGestion;
use crate::gestion::step::StepGestion;
use crate::mets::{AmdSec, DmdSec, Mets};
use crate::tef::{
    Auteur, DirecteurThese, EcoleDoctorale, ElementdEntree, MembreJury, OaiSetSpec,
    PartenaireRecherche, PresidentJury, Rapporteur, Subdivision, SujetRameau, SujetRameauValues,
    TheseSurTravaux, ThesisAdmin, ThesisDegreeDiscipline, ThesisDegreeGrantor, ThesisRecord,
};
use crate::tolerant::Tolerant;
use vstd::prelude::*;

verus! {

/// The mandatory field of which a document holds no occurrence that counts.
#[derive(Debug, Clone, Copy, PartialEq, Eq)]
pub enum TefError {
    DateAcceptedNotFound,
    ThesisDegreeDisciplineNotFound,
    ThesisDegreeGrantorNotFound,
    TheseSurTravauxNotFound,
    AuteurNotFound,
    DirecteurTheseNotFound,
    OaiSetSpecNotFound,
    TitleNotFound,
    AlternativeTitleNotFound,
    AbstractNotFound,
    SubjectNotFound,
    LanguageNotFound,
    ElementdEntreeNotFound,
    StarGestionNotFound,
    StepGestionNotFound,
    IdentifierNotFound,
}

impl TefError {
    /// The words that name the error.
    pub open spec fn text(self) -> Seq<char> {
        match self {
            TefError::DateAcceptedNotFound => "date accetped not found"@,
            TefError::ThesisDegreeDisciplineNotFound => "thesis degree discipline not found"@,
            TefError::ThesisDegreeGrantorNotFound => "thesis degree grantor not found"@,
            TefError::TheseSurTravauxNotFound => "theses sur travaux not found"@,
            TefError::AuteurNotFound => "auteur not found"@,
            TefError::DirecteurTheseNotFound => "directeur de thèse not found"@,
            TefError::OaiSetSpecNotFound => "oai set not found"@,
            TefError::TitleNotFound => "title not found"@,
            TefError::AlternativeTitleNotFound => "alternative title not found"@,
            TefError::AbstractNotFound => "abstract not found"@,
            TefError::SubjectNotFound => "subject not found"@,
            TefError::LanguageNotFound => "language not found"@,
            TefError::ElementdEntreeNotFound => "element entree not found"@,
            TefError::StarGestionNotFound => "star getsion not found"@,
            TefError::StepGestionNotFound => "step getsion not found"@,
            TefError::IdentifierNotFound => "identifier not found"@,
        }
    }

    /// The words that name the error.
    pub fn message(&self) -> (r: &'static str)
        ensures
            r@ == self.text(),
    {
        match self {
            TefError::DateAcceptedNotFound => "date accetped not found",
            TefError::ThesisDegreeDisciplineNotFound => "thesis degree discipline not found",
            TefError::ThesisDegreeGrantorNotFound => "thesis degree grantor not found",
            TefError::TheseSurTravauxNotFound => "theses sur travaux not found",
            TefError::AuteurNotFound => "auteur not found",
            TefError::DirecteurTheseNotFound => "directeur de thèse not found",
            TefError::OaiSetSpecNotFound => "oai set not found",
            TefError::TitleNotFound => "title not found",
            TefError::AlternativeTitleNotFound => "alternative title not found",
            TefError::AbstractNotFound => "abstract not found",
            TefError::SubjectNotFound => "subject not found",
            TefError::LanguageNotFound => "language not found",
            TefError::ElementdEntreeNotFound => "element entree not found",
            TefError::StarGestionNotFound => "star getsion not found",
            TefError::StepGestionNotFound => "step getsion not found",
            TefError::IdentifierNotFound => "identifier not found",
        }
    }

    /// The words that name the error, as an owned text.
    pub fn to_string(&self) -> (r: String)
        ensures
            r@ == self.text(),
    {
        self.message().to_owned()
    }
}

/// The descriptive sections of a document that are not placeholders, in document order.
pub open spec fn dmd_secs_of(mets: Mets) -> Seq<DmdSec> {
    kept(DmdSec::occurrences(mets))
}

/// The administrative sections of a document that are not placeholders, in document order.
pub open spec fn amd_secs_of(mets: Mets) -> Seq<AmdSec> {
    kept(AmdSec::occurrences(mets))
}

/// The administrative records of a document that are not placeholders, in document order.
pub open spec fn thesis_admins_of(mets: Mets) -> Seq<ThesisAdmin> {
    survivors::<ThesisAdmin>(amd_secs_of(mets))
}

/// The descriptive records of a document that are not placeholders, in document order.
pub open spec fn thesis_records_of(mets: Mets) -> Seq<ThesisRecord> {
    survivors::<ThesisRecord>(dmd_secs_of(mets))
}

/// Section selection: the descriptive sections that are not placeholders.
pub fn dmd_secs(mets: &Mets) -> (r: Vec<&DmdSec>)
    ensures
        targets(r@) == dmd_secs_of(*mets),
{
    selected::<DmdSec>(mets)
}

/// Section selection: the administrative sections that are not placeholders.
pub fn amd_secs(mets: &Mets) -> (r: Vec<&AmdSec>)
    ensures
        targets(r@) == amd_secs_of(*mets),
{
    selected::<AmdSec>(mets)
}

/// Payload unwrapping: the administrative records that are not placeholders.
pub fn thesis_admins(mets: &Mets) -> (r: Vec<&ThesisAdmin>)
    ensures
        targets(r@) == thesis_admins_of(*mets),
{
    surviving::<ThesisAdmin>(&amd_secs(mets))
}

/// Payload unwrapping: the descriptive records that are not placeholders.
pub fn thesis_records(mets: &Mets) -> (r: Vec<&ThesisRecord>)
    ensures
        targets(r@) == thesis_records_of(*mets),
{
    surviving::<ThesisRecord>(&dmd_secs(mets))
}

/// The date of defence: the first occurrence in the administrative records that counts, or the
/// error that names the field where none counts. Several occurrences are no error.
pub open spec fn date_accepted_of(mets: Mets) -> Result<DateAccepted, TefError> {
    first_or(survivors::<DateAccepted>(thesis_admins_of(mets)), TefError::DateAcceptedNotFound)
}

/// Extracts the date of defence from a document.
pub fn date_accepted(mets: &Mets) -> (r: Result<&DateAccepted, TefError>)
    ensures
        value_of(r) == date_accepted_of(*mets),
{
    exactly_one(&surviving::<DateAccepted>(&thesis_admins(mets)), TefError::DateAcceptedNotFound)
}

/// The identifiers of the thesis: every occurrence in the administrative records that counts,
/// in document order, or the error that names the field where none counts.
pub open spec fn identifiers_of(mets: Mets) -> Result<Seq<Identifier>, TefError> {
    all_or(survivors::<Identifier>(thesis_admins_of(mets)), TefError::IdentifierNotFound)
}

/// Extracts the identifiers of the thesis from a document.
pub fn identifiers(mets: &Mets) -> (r: Result<Vec<&Identifier>, TefError>)
    ensures
        values_of(r) == identifiers_of(*mets),
{
    one_or_more(surviving::<Identifier>(&thesis_admins(mets)), TefError::IdentifierNotFound)
}

/// The discipline of the thesis: the first occurrence in the administrative records that
/// counts, or the error that names the field where none counts. Several occurrences are no
/// error.
pub open spec fn thesis_degree_discipline_of(mets: Mets) -> Result<
    ThesisDegreeDiscipline,
    TefError,
> {
    first_or(
        survivors::<ThesisDegreeDiscipline>(thesis_admins_of(mets)),
        TefError::ThesisDegreeDisciplineNotFound,
    )
}

/// Extracts the discipline of the thesis from a document.
pub fn thesis_degree_discipline(mets: &Mets) -> (r: Result<&ThesisDegreeDiscipline, TefError>)
    ensures
        value_of(r) == thesis_degree_discipline_of(*mets),
{
    exactly_one(
        &surviving::<ThesisDegreeDiscipline>(&thesis_admins(mets)),
        TefError::ThesisDegreeDisciplineNotFound,
    )
}

/// The institutions that granted the degree: every occurrence in the administrative records
/// that counts, in document order, or the error that names the field where none counts.
pub open spec fn thesis_degree_grantors_of(mets: Mets) -> Result<
    Seq<ThesisDegreeGrantor>,
    TefError,
> {
    all_or(
        survivors::<ThesisDegreeGrantor>(thesis_admins_of(mets)),
        TefError::ThesisDegreeGrantorNotFound,
    )
}

/// Extracts the institutions that granted the degree from a document.
pub fn thesis_degree_grantors(mets: &Mets) -> (r: Result<Vec<&ThesisDegreeGrantor>, TefError>)
    ensures
        values_of(r) == thesis_degree_grantors_of(*mets),
{
    one_or_more(
        surviving::<ThesisDegreeGrantor>(&thesis_admins(mets)),
        TefError::ThesisDegreeGrantorNotFound,
    )
}

/// The mark of a thesis by publications: the first occurrence in the administrative records
/// that counts, or the error that names the field where none counts. Several occurrences are no
/// error.
pub open spec fn these_sur_travaux_of(mets: Mets) -> Result<TheseSurTravaux, TefError> {
    first_or(
        survivors::<TheseSurTravaux>(thesis_admins_of(mets)),
        TefError::TheseSurTravauxNotFound,
    )
}

/// Extracts the mark of a thesis by publications from a document.
pub fn these_sur_travaux(mets: &Mets) -> (r: Result<&TheseSurTravaux, TefError>)
    ensures
        value_of(r) == these_sur_travaux_of(*mets),
{
    exactly_one(
        &surviving::<TheseSurTravaux>(&thesis_admins(mets)),
        TefError::TheseSurTravauxNotFound,
    )
}

/// The author: the first occurrence in the administrative records that counts, or the error
/// that names the field where none counts. Several occurrences are no error.
pub open spec fn auteur_of(mets: Mets) -> Result<Auteur, TefError> {
    first_or(survivors::<Auteur>(thesis_admins_of(mets)), TefError::AuteurNotFound)
}

/// Extracts the author from a document.
pub fn auteur(mets: &Mets) -> (r: Result<&Auteur, TefError>)
    ensures
        value_of(r) == auteur_of(*mets),
{
    exactly_one(&surviving::<Auteur>(&thesis_admins(mets)), TefError::AuteurNotFound)
}

/// The supervisors: every occurrence in the administrative records that counts, in document
/// order, or the error that names the field where none counts.
pub open spec fn directeurs_these_of(mets: Mets) -> Result<Seq<DirecteurThese>, TefError> {
    all_or(survivors::<DirecteurThese>(thesis_admins_of(mets)), TefError::DirecteurTheseNotFound)
}

/// Extracts the supervisors from a document.
pub fn directeurs_these(mets: &Mets) -> (r: Result<Vec<&DirecteurThese>, TefError>)
    ensures
        values_of(r) == directeurs_these_of(*mets),
{
    one_or_more(surviving::<DirecteurThese>(&thesis_admins(mets)), TefError::DirecteurTheseNotFound)
}

/// The referees: every occurrence in the administrative records that counts, in document order;
/// absent where none counts.
pub open spec fn rapporteurs_of(mets: Mets) -> Option<Seq<Rapporteur>> {
    maybe_all(survivors::<Rapporteur>(thesis_admins_of(mets)))
}

/// Extracts the referees from a document.
pub fn rapporteurs(mets: &Mets) -> (r: Option<Vec<&Rapporteur>>)
    ensures
        optional_values_of(r) == rapporteurs_of(*mets),
{
    zero_or_more(surviving::<Rapporteur>(&thesis_admins(mets)))
}

/// The president of the jury: the first occurrence in the administrative records that counts;
/// absent where none counts.
pub open spec fn president_jury_of(mets: Mets) -> Option<PresidentJury> {
    maybe_first(survivors::<PresidentJury>(thesis_admins_of(mets)))
}

/// Extracts the president of the jury from a document.
pub fn president_jury(mets: &Mets) -> (r: Option<&PresidentJury>)
    ensures
        optional_value_of(r) == president_jury_of(*mets),
{
    at_most_one(&surviving::<PresidentJury>(&thesis_admins(mets)))
}

/// The members of the jury: every occurrence in the administrative records that counts, in
/// document order; absent where none counts.
pub open spec fn membres_jury_of(mets: Mets) -> Option<Seq<MembreJury>> {
    maybe_all(survivors::<MembreJury>(thesis_admins_of(mets)))
}

/// Extracts the members of the jury from a document.
pub fn membres_jury(mets: &Mets) -> (r: Option<Vec<&MembreJury>>)
    ensures
        optional_values_of(r) == membres_jury_of(*mets),
{
    zero_or_more(surviving::<MembreJury>(&thesis_admins(mets)))
}

/// The doctoral schools: every occurrence in the administrative records that counts, in
/// document order; absent where none counts.
pub open spec fn ecoles_doctorales_of(mets: Mets) -> Option<Seq<EcoleDoctorale>> {
    maybe_all(survivors::<EcoleDoctorale>(thesis_admins_of(mets)))
}

/// Extracts the doctoral schools from a document.
pub fn ecoles_doctorales(mets: &Mets) -> (r: Option<Vec<&EcoleDoctorale>>)
    ensures
        optional_values_of(r) == ecoles_doctorales_of(*mets),
{
    zero_or_more(surviving::<EcoleDoctorale>(&thesis_admins(mets)))
}

/// The research partners: every occurrence in the administrative records that counts, in
/// document order; absent where none counts.
pub open spec fn partenaires_recherche_of(mets: Mets) -> Option<Seq<PartenaireRecherche>> {
    maybe_all(survivors::<PartenaireRecherche>(thesis_admins_of(mets)))
}

/// Extracts the research partners from a document.
pub fn partenaires_recherche(mets: &Mets) -> (r: Option<Vec<&PartenaireRecherche>>)
    ensures
        optional_values_of(r) == partenaires_recherche_of(*mets),
{
    zero_or_more(surviving::<PartenaireRecherche>(&thesis_admins(mets)))
}

/// The OAI sets: every occurrence in the administrative records that counts, in document order,
/// or the error that names the field where none counts.
pub open spec fn oai_set_specs_of(mets: Mets) -> Result<Seq<OaiSetSpec>, TefError> {
    all_or(survivors::<OaiSetSpec>(thesis_admins_of(mets)), TefError::OaiSetSpecNotFound)
}

/// Extracts the OAI sets from a document.
pub fn oai_set_specs(mets: &Mets) -> (r: Result<Vec<&OaiSetSpec>, TefError>)
    ensures
        values_of(r) == oai_set_specs_of(*mets),
{
    one_or_more(surviving::<OaiSetSpec>(&thesis_admins(mets)), TefError::OaiSetSpecNotFound)
}

/// The title: the first occurrence in the descriptive records that counts, or the error that
/// names the field where none counts. Several occurrences are no error.
pub open spec fn title_of(mets: Mets) -> Result<Title, TefError> {
    first_or(survivors::<Title>(thesis_records_of(mets)), TefError::TitleNotFound)
}

/// Extracts the title from a document.
pub fn title(mets: &Mets) -> (r: Result<&Title, TefError>)
    ensures
        value_of(r) == title_of(*mets),
{
    exactly_one(&surviving::<Title>(&thesis_records(mets)), TefError::TitleNotFound)
}

/// The titles in other languages: every occurrence in the descriptive records that counts, in
/// document order, or the error that names the field where none counts.
pub open spec fn alternatives_of(mets: Mets) -> Result<Seq<Alternative>, TefError> {
    all_or(survivors::<Alternative>(thesis_records_of(mets)), TefError::AlternativeTitleNotFound)
}

/// Extracts the titles in other languages from a document.
pub fn alternatives(mets: &Mets) -> (r: Result<Vec<&Alternative>, TefError>)
    ensures
        values_of(r) == alternatives_of(*mets),
{
    one_or_more(surviving::<Alternative>(&thesis_records(mets)), TefError::AlternativeTitleNotFound)
}

/// The abstracts: every occurrence in the descriptive records that counts, in document order,
/// or the error that names the field where none counts.
pub open spec fn abstracts_of(mets: Mets) -> Result<Seq<Abstract>, TefError> {
    all_or(survivors::<Abstract>(thesis_records_of(mets)), TefError::AbstractNotFound)
}

/// Extracts the abstracts from a document.
pub fn abstracts(mets: &Mets) -> (r: Result<Vec<&Abstract>, TefError>)
    ensures
        values_of(r) == abstracts_of(*mets),
{
    one_or_more(surviving::<Abstract>(&thesis_records(mets)), TefError::AbstractNotFound)
}

/// The subjects: every occurrence in the descriptive records that counts, in document order, or
/// the error that names the field where none counts.
pub open spec fn subjects_of(mets: Mets) -> Result<Seq<Subject>, TefError> {
    all_or(survivors::<Subject>(thesis_records_of(mets)), TefError::SubjectNotFound)
}

/// Extracts the subjects from a document.
pub fn subjects(mets: &Mets) -> (r: Result<Vec<&Subject>, TefError>)
    ensures
        values_of(r) == subjects_of(*mets),
{
    one_or_more(surviving::<Subject>(&thesis_records(mets)), TefError::SubjectNotFound)
}

/// The languages: every occurrence in the descriptive records that counts, in document order,
/// or the error that names the field where none counts.
pub open spec fn languages_of(mets: Mets) -> Result<Seq<Language>, TefError> {
    all_or(survivors::<Language>(thesis_records_of(mets)), TefError::LanguageNotFound)
}

/// Extracts the languages from a document.
pub fn languages(mets: &Mets) -> (r: Result<Vec<&Language>, TefError>)
    ensures
        values_of(r) == languages_of(*mets),
{
    one_or_more(surviving::<Language>(&thesis_records(mets)), TefError::LanguageNotFound)
}

/// The subject headings: the first occurrence in the descriptive records that counts; absent
/// where none counts.
pub open spec fn sujet_rameau_of(mets: Mets) -> Option<SujetRameau> {
    maybe_first(survivors::<SujetRameau>(thesis_records_of(mets)))
}

/// Extracts the subject headings from a document.
pub fn sujet_rameau(mets: &Mets) -> (r: Option<&SujetRameau>)
    ensures
        optional_value_of(r) == sujet_rameau_of(*mets),
{
    at_most_one(&surviving::<SujetRameau>(&thesis_records(mets)))
}

/// The workflow record of the deposit system: the first occurrence in the descriptive sections
/// that counts, or the error that names the field where none counts. Several occurrences are no
/// error.
pub open spec fn star_gestion_of(mets: Mets) -> Result<StarGestion, TefError> {
    first_or(survivors::<StarGestion>(dmd_secs_of(mets)), TefError::StarGestionNotFound)
}

/// Extracts the workflow record of the deposit system from a document.
pub fn star_gestion(mets: &Mets) -> (r: Result<&StarGestion, TefError>)
    ensures
        value_of(r) == star_gestion_of(*mets),
{
    exactly_one(&surviving::<StarGestion>(&dmd_secs(mets)), TefError::StarGestionNotFound)
}

/// The workflow record of the registration system: the first occurrence in the descriptive
/// sections that counts, or the error that names the field where none counts. Several
/// occurrences are no error.
pub open spec fn step_gestion_of(mets: Mets) -> Result<StepGestion, TefError> {
    first_or(survivors::<StepGestion>(dmd_secs_of(mets)), TefError::StepGestionNotFound)
}

/// Extracts the workflow record of the registration system from a document.
pub fn step_gestion(mets: &Mets) -> (r: Result<&StepGestion, TefError>)
    ensures
        value_of(r) == step_gestion_of(*mets),
{
    exactly_one(&surviving::<StepGestion>(&dmd_secs(mets)), TefError::StepGestionNotFound)
}

impl SujetRameauValues {
    /// The common shape of the eight kinds of heading: an entry term and its qualifiers.
    pub open spec fn heading(self) -> (ElementdEntree, Option<Vec<Subdivision>>) {
        match self {
            SujetRameauValues::VedetteRameauPersonne(v) => (v.element_entree, v.subdivision),
            SujetRameauValues::VedetteRameauCollectivite(v) => (v.element_entree, v.subdivision),
            SujetRameauValues::VedetteRameauFamille(v) => (v.element_entree, v.subdivision),
            SujetRameauValues::VedetteRameauAuteurTitre(v) => (v.element_entree, v.subdivision),
            SujetRameauValues::VedetteRameauTitre(v) => (v.element_entree, v.subdivision),
            SujetRameauValues::VedetteRameauNomCommun(v) => (v.element_entree, v.subdivision),
            SujetRameauValues::VedetteRameauNomGeographique(v) => (v.element_entree, v.subdivision),
            SujetRameauValues::VedetteRameauGenreForme(v) => (v.element_entree, v.subdivision),
        }
    }

    /// The entry term and the qualifiers of a heading, whatever its kind.
    pub fn heading_ref(&self) -> (r: (&ElementdEntree, &Option<Vec<Subdivision>>))
        ensures
            *r.0 == self.heading().0,
            *r.1 == self.heading().1,
    {
        match self {
            SujetRameauValues::VedetteRameauPersonne(v) => (&v.element_entree, &v.subdivision),
            SujetRameauValues::VedetteRameauCollectivite(v) => (&v.element_entree, &v.subdivision),
            SujetRameauValues::VedetteRameauFamille(v) => (&v.element_entree, &v.subdivision),
            SujetRameauValues::VedetteRameauAuteurTitre(v) => (&v.element_entree, &v.subdivision),
            SujetRameauValues::VedetteRameauTitre(v) => (&v.element_entree, &v.subdivision),
            SujetRameauValues::VedetteRameauNomCommun(v) => (&v.element_entree, &v.subdivision),
            SujetRameauValues::VedetteRameauNomGeographique(v) => (
                &v.element_entree,
                &v.subdivision,
            ),
            SujetRameauValues::VedetteRameauGenreForme(v) => (&v.element_entree, &v.subdivision),
        }
    }
}

/// The entry term of a heading, or the error that names it where the term is the zero value.
pub open spec fn element_entree_of(values: SujetRameauValues) -> Result<ElementdEntree, TefError> {
    if values.heading().0.is_zero() {
        Err(TefError::ElementdEntreeNotFound)
    } else {
        Ok(values.heading().0)
    }
}

/// The qualifiers of a heading that are not the zero value, in the order they are listed;
/// absent where the heading lists none or only zero values.
pub open spec fn subdivisions_of(values: SujetRameauValues) -> Option<Seq<Subdivision>> {
    maybe_all(kept(optional_many(values.heading().1)))
}

/// The entry term of a heading. A term whose text is not empty is never the zero value, so a
/// heading of any kind with such a term has one.
pub fn element_entree(values: &SujetRameauValues) -> (r: Result<ElementdEntree, TefError>)
    ensures
        r == element_entree_of(*values),
        values.heading().0.text@.len() > 0 ==> r is Ok && !r->Ok_0.is_zero(),
{
    let (term, _) = values.heading_ref();
    if term.is_default() {
        Err(TefError::ElementdEntreeNotFound)
    } else {
        Ok(term.clone())
    }
}

/// What an owned optional sequence holds.
pub open spec fn owned_values_of<T>(outcome: Option<Vec<T>>) -> Option<Seq<T>> {
    match outcome {
        Some(many) => Some(many@),
        None => None,
    }
}

/// The qualifiers of a heading.
pub fn subdivisions(values: &SujetRameauValues) -> (r: Option<Vec<Subdivision>>)
    ensures
        owned_values_of(r) == subdivisions_of(*values),
{
    let (_, listed) = values.heading_ref();
    match listed {
        None => {
            proof {
                reveal(Seq::filter);
            }
            None
        },
        Some(list) => {
            let mut out: Vec<Subdivision> = Vec::new();
            let mut i: usize = 0;
            proof {
                reveal(Seq::filter);
                assert(list@.take(0) =~= Seq::<Subdivision>::empty());
            }
            while i < list.len()
                invariant
                    i <= list.len(),
                    out@ == kept(list@.take(i as int)),
                decreases list.len() - i,
            {
                proof {
                    assert(list@.take(i + 1) =~= list@.take(i as int).push(list@[i as int]));
                    list@.take(i as int).lemma_filter_push(
                        list@[i as int],
                        |c: Subdivision| c.counts(),
                    );
                }
                if list[i].qualifies() {
                    out.push(list[i].clone());
                }
                i += 1;
            }
            proof {
                assert(list@.take(i as int) =~= list@);
            }
            if out.len() > 0 {
                Some(out)
            } else {
                None
            }
        },
    }
}

} // verus!
