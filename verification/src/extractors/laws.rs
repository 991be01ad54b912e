//! What holds of every accessor, whatever the document.
use crate::extractors::algebra::{
    all_or, candidates, fails_with, first_or, kept, maybe_first, optional_many,
    optional_value_of, optional_values_of, payloads, survivors, targets, value_of, values_of,
    Extract, Holds, Policy,
};
use crate::extractors::{
    abstracts_of, alternatives_of, amd_secs_of, auteur_of, date_accepted_of, directeurs_these_of,
    dmd_secs_of, ecoles_doctorales_of, element_entree_of, identifiers_of, languages_of,
    membres_jury_of, oai_set_specs_of, partenaires_recherche_of, president_jury_of,
    rapporteurs_of, star_gestion_of, step_gestion_of, subdivisions_of, subjects_of,
    sujet_rameau_of, these_sur_travaux_of, thesis_admins_of, thesis_degree_discipline_of,
    thesis_degree_grantors_of, thesis_records_of, title_of, TefError,
};
use crate::dc::{Identifier, Language, Subject, Title};
use crate::dcterms::{Abstract, Alternative, DateAccepted};
use crate::gestion::star::StarGestion;
use crate::gestion::step::StepGestion;
use crate::mets::{AmdSec, DmdSec, Mets, MetsValues};
use crate::tef::{
    Auteur, DirecteurThese, EcoleDoctorale, ElementdEntree, MembreJury, OaiSetSpec,
    PartenaireRecherche, PresidentJury, Rapporteur, SujetRameau, SujetRameauValues,
    TheseSurTravaux, ThesisAdmin, ThesisDegreeDiscipline, ThesisDegreeGrantor, ThesisRecord,
};
use crate::tolerant::Tolerant;
use vstd::prelude::*;

verus! {

/// The positions of the candidates that count, in ascending order.
pub open spec fn counting_positions<T: Policy>(candidates: Seq<T>) -> Seq<int>
    decreases candidates.len(),
{
    if candidates.len() == 0 {
        Seq::empty()
    } else {
        let before = counting_positions(candidates.drop_last());
        if candidates.last().counts() {
            before.push(candidates.len() - 1)
        } else {
            before
        }
    }
}

/// Filtering keeps exactly the candidates that count, each once, in the order they came in:
/// the k-th value kept is the candidate at the k-th counting position.
pub proof fn lemma_kept_in_order<T: Policy>(candidates: Seq<T>)
    ensures
        kept(candidates).len() == counting_positions(candidates).len(),
        forall|k: int|
            0 <= k < kept(candidates).len() ==> 0 <= #[trigger] counting_positions(candidates)[k]
                < candidates.len() && kept(candidates)[k] == candidates[counting_positions(
                candidates,
            )[k]],
        forall|j: int, k: int|
            0 <= j < k < counting_positions(candidates).len() ==> counting_positions(
                candidates,
            )[j] < counting_positions(candidates)[k],
        forall|i: int|
            #![trigger candidates[i]]
            #![trigger counting_positions(candidates).contains(i)]
            0 <= i < candidates.len() ==> (candidates[i].counts() <==> counting_positions(
                candidates,
            ).contains(i)),
    decreases candidates.len(),
{
    reveal(Seq::filter);
    if candidates.len() > 0 {
        let before = candidates.drop_last();
        let last = candidates.len() - 1;
        lemma_kept_in_order(before);
        let old_positions = counting_positions(before);
        let positions = counting_positions(candidates);
        assert forall|i: int|
            #![trigger candidates[i]]
            #![trigger positions.contains(i)]
            0 <= i < candidates.len() implies (candidates[i].counts() <==> positions.contains(
            i,
        )) by {
            if i < last {
                assert(before[i] == candidates[i]);
                if candidates[i].counts() {
                    let k = choose|k: int| 0 <= k < old_positions.len() && old_positions[k] == i;
                    assert(positions[k] == i);
                }
                if positions.contains(i) {
                    let k = choose|k: int| 0 <= k < positions.len() && positions[k] == i;
                    assert(k < old_positions.len());
                    assert(old_positions[k] == i);
                }
            } else {
                if candidates[i].counts() {
                    assert(positions[positions.len() - 1] == i);
                }
                if positions.contains(i) {
                    let k = choose|k: int| 0 <= k < positions.len() && positions[k] == i;
                    if k < old_positions.len() {
                        assert(old_positions[k] == i);
                    }
                }
            }
        }
        assert forall|k: int| 0 <= k < kept(candidates).len() implies 0 <= #[trigger] positions[k]
            < candidates.len() && kept(candidates)[k] == candidates[positions[k]] by {
            if k < old_positions.len() {
                assert(positions[k] == old_positions[k]);
                assert(kept(candidates)[k] == kept(before)[k]);
                assert(before[old_positions[k]] == candidates[old_positions[k]]);
            }
        }
        assert forall|j: int, k: int| 0 <= j < k < positions.len() implies positions[j]
            < positions[k] by {
            if k < old_positions.len() {
                assert(positions[j] == old_positions[j]);
                assert(positions[k] == old_positions[k]);
            } else {
                assert(positions[j] == old_positions[j]);
            }
        }
    }
}

/// Where no candidate counts, none is kept.
pub proof fn lemma_nothing_counts<T: Policy>(candidates: Seq<T>)
    requires
        forall|i: int| 0 <= i < candidates.len() ==> !(#[trigger] candidates[i]).counts(),
    ensures
        kept(candidates) == Seq::<T>::empty(),
{
    lemma_kept_in_order(candidates);
    if counting_positions(candidates).len() > 0 {
        let i = counting_positions(candidates)[0];
        assert(counting_positions(candidates).contains(i));
        assert(candidates[i].counts());
    }
    assert(kept(candidates) =~= Seq::<T>::empty());
}

/// One or more or error: a field with N candidates that count yields exactly those N values,
/// in the order of the candidates, where N is at least one, and the error that names the
/// field where N is zero.
pub proof fn lemma_one_or_more<T: Policy>(candidates: Seq<T>, missing: TefError)
    ensures
        counting_positions(candidates).len() == 0 ==> all_or(kept(candidates), missing) == Err::<
            Seq<T>,
            TefError,
        >(missing),
        counting_positions(candidates).len() >= 1 ==> all_or(kept(candidates), missing) == Ok::<
            Seq<T>,
            TefError,
        >(kept(candidates)),
        kept(candidates).len() == counting_positions(candidates).len(),
        forall|k: int|
            0 <= k < counting_positions(candidates).len() ==> kept(candidates)[k]
                == candidates[#[trigger] counting_positions(candidates)[k]],
        forall|j: int, k: int|
            0 <= j < k < counting_positions(candidates).len() ==> counting_positions(
                candidates,
            )[j] < counting_positions(candidates)[k],
{
    lemma_kept_in_order(candidates);
}

/// Exactly one or error: where several candidates count, the result is the first of them in
/// document order, and never an error.
pub proof fn lemma_first_wins<T: Policy>(candidates: Seq<T>, missing: TefError, first: int)
    requires
        0 <= first < candidates.len(),
        candidates[first].counts(),
        forall|i: int| 0 <= i < first ==> !(#[trigger] candidates[i]).counts(),
    ensures
        first_or(kept(candidates), missing) == Ok::<T, TefError>(candidates[first]),
        maybe_first(kept(candidates)) == Some(candidates[first]),
{
    lemma_kept_in_order(candidates);
    let positions = counting_positions(candidates);
    assert(positions.contains(first));
    let k = choose|k: int| 0 <= k < positions.len() && positions[k] == first;
    assert(positions.contains(positions[0]));
    assert(candidates[positions[0]].counts());
    if k > 0 {
        assert(positions[0] < positions[k]);
    }
}

/// An exactly-one accessor fails only where no candidate counts.
pub proof fn lemma_error_only_when_none_counts<T: Policy>(candidates: Seq<T>, missing: TefError)
    ensures
        first_or(kept(candidates), missing) is Err <==> forall|i: int|
            0 <= i < candidates.len() ==> !(#[trigger] candidates[i]).counts(),
        all_or(kept(candidates), missing) is Err <==> forall|i: int|
            0 <= i < candidates.len() ==> !(#[trigger] candidates[i]).counts(),
{
    lemma_kept_in_order(candidates);
    if forall|i: int| 0 <= i < candidates.len() ==> !(#[trigger] candidates[i]).counts() {
        lemma_nothing_counts(candidates);
    } else {
        let i = choose|i: int| 0 <= i < candidates.len() && (#[trigger] candidates[i]).counts();
        assert(counting_positions(candidates).contains(i));
    }
}

/// No source record, no occurrence.
pub proof fn lemma_no_source<T: Extract>()
    ensures
        candidates::<T>(Seq::<T::Source>::empty()) == Seq::<T>::empty(),
        survivors::<T>(Seq::<T::Source>::empty()) == Seq::<T>::empty(),
{
    reveal(Seq::filter);
    assert(candidates::<T>(Seq::<T::Source>::empty()) =~= Seq::<T>::empty());
}

/// The occurrences in a sequence of source records are those in all but the last record,
/// followed by those in the last.
pub proof fn lemma_candidates_by_source<T: Extract>(sources: Seq<T::Source>)
    requires
        sources.len() > 0,
    ensures
        candidates::<T>(sources) == candidates::<T>(sources.drop_last()) + T::occurrences(
            sources.last(),
        ),
        survivors::<T>(sources) == survivors::<T>(sources.drop_last()) + kept(
            T::occurrences(sources.last()),
        ),
{
    let f = |s: T::Source| T::occurrences(s);
    sources.drop_last().lemma_flat_map_push(f, sources.last());
    assert(sources.drop_last().push(sources.last()) =~= sources);
    Seq::filter_distributes_over_add(
        candidates::<T>(sources.drop_last()),
        T::occurrences(sources.last()),
        |c: T| c.counts(),
    );
}

/// Where no occurrence in any source record counts, nothing survives.
pub proof fn lemma_no_occurrence_counts<T: Extract>(sources: Seq<T::Source>)
    requires
        forall|i: int, j: int|
            0 <= i < sources.len() && 0 <= j < T::occurrences(sources[i]).len()
                ==> !(#[trigger] T::occurrences(sources[i])[j]).counts(),
    ensures
        survivors::<T>(sources) == Seq::<T>::empty(),
    decreases sources.len(),
{
    if sources.len() == 0 {
        lemma_no_source::<T>();
        assert(sources =~= Seq::<T::Source>::empty());
    } else {
        let before = sources.drop_last();
        assert forall|i: int, j: int|
            0 <= i < before.len() && 0 <= j < T::occurrences(before[i]).len() implies !(
        #[trigger] T::occurrences(before[i])[j]).counts() by {
            assert(before[i] == sources[i]);
        }
        lemma_no_occurrence_counts::<T>(before);
        lemma_candidates_by_source::<T>(sources);
        let last = T::occurrences(sources.last());
        assert forall|j: int| 0 <= j < last.len() implies !(#[trigger] last[j]).counts() by {
            assert(sources.last() == sources[sources.len() - 1]);
            assert(last[j] == T::occurrences(sources[sources.len() - 1])[j]);
        }
        lemma_nothing_counts(last);
        assert(survivors::<T>(sources) =~= Seq::<T>::empty());
    }
}

/// Every record that the children carry is carried by one of them.
pub proof fn lemma_payload_has_carrier<C: Holds<T>, T>(children: Seq<C>, k: int)
    requires
        0 <= k < payloads::<C, T>(children).len(),
    ensures
        exists|i: int|
            0 <= i < children.len() && (#[trigger] children[i]).payload() == Some(
                payloads::<C, T>(children)[k],
            ),
{
    let f = |c: C| c.payload();
    let record = payloads::<C, T>(children)[k];
    assert(children.filter_map(f).contains(record));
    children.lemma_filter_map_contains(f, record);
    let carrier = choose|c: C| #[trigger] children.contains(c) && f(c) == Some(record);
    let i = choose|i: int| 0 <= i < children.len() && children[i] == carrier;
    assert(children[i].payload() == Some(record));
}

/// Section selection drops placeholders: a document whose administrative sections are all
/// zero values has none that is selected, and likewise for its descriptive sections.
pub proof fn lemma_placeholder_sections_are_dropped(mets: Mets)
    ensures
        (forall|i: int|
            0 <= i < mets.values@.len() ==> (#[trigger] mets.values@[i] matches MetsValues::AmdSec(
                section,
            ) ==> section.is_zero())) ==> amd_secs_of(mets) == Seq::<AmdSec>::empty(),
        (forall|i: int|
            0 <= i < mets.values@.len() ==> (#[trigger] mets.values@[i] matches MetsValues::DmdSec(
                section,
            ) ==> section.is_zero())) ==> dmd_secs_of(mets) == Seq::<DmdSec>::empty(),
{
    if forall|i: int|
        0 <= i < mets.values@.len() ==> (#[trigger] mets.values@[i] matches MetsValues::AmdSec(
            section,
        ) ==> section.is_zero()) {
        let found = payloads::<MetsValues, AmdSec>(mets.values@);
        assert forall|k: int| 0 <= k < found.len() implies !(#[trigger] found[k]).counts() by {
            lemma_payload_has_carrier::<MetsValues, AmdSec>(mets.values@, k);
        }
        lemma_nothing_counts(found);
    }
    if forall|i: int|
        0 <= i < mets.values@.len() ==> (#[trigger] mets.values@[i] matches MetsValues::DmdSec(
            section,
        ) ==> section.is_zero()) {
        let found = payloads::<MetsValues, DmdSec>(mets.values@);
        assert forall|k: int| 0 <= k < found.len() implies !(#[trigger] found[k]).counts() by {
            lemma_payload_has_carrier::<MetsValues, DmdSec>(mets.values@, k);
        }
        lemma_nothing_counts(found);
    }
}

/// Every mandatory field that is read from administrative records is reported missing, each
/// under its own name.
pub open spec fn administrative_fields_missing(mets: Mets) -> bool {
    &&& fails_with(date_accepted_of(mets), TefError::DateAcceptedNotFound)
    &&& fails_with(identifiers_of(mets), TefError::IdentifierNotFound)
    &&& fails_with(thesis_degree_discipline_of(mets), TefError::ThesisDegreeDisciplineNotFound)
    &&& fails_with(thesis_degree_grantors_of(mets), TefError::ThesisDegreeGrantorNotFound)
    &&& fails_with(these_sur_travaux_of(mets), TefError::TheseSurTravauxNotFound)
    &&& fails_with(auteur_of(mets), TefError::AuteurNotFound)
    &&& fails_with(directeurs_these_of(mets), TefError::DirecteurTheseNotFound)
    &&& fails_with(oai_set_specs_of(mets), TefError::OaiSetSpecNotFound)
}

/// Every mandatory field that is read from descriptive records is reported missing, each under
/// its own name.
pub open spec fn descriptive_fields_missing(mets: Mets) -> bool {
    &&& fails_with(title_of(mets), TefError::TitleNotFound)
    &&& fails_with(alternatives_of(mets), TefError::AlternativeTitleNotFound)
    &&& fails_with(abstracts_of(mets), TefError::AbstractNotFound)
    &&& fails_with(subjects_of(mets), TefError::SubjectNotFound)
    &&& fails_with(languages_of(mets), TefError::LanguageNotFound)
}

/// A document without an administrative record that counts yields, for every mandatory field
/// that is read from administrative records, the error that names that field, and for every
/// optional one an absent value.
pub proof fn lemma_no_administrative_record(mets: Mets)
    requires
        thesis_admins_of(mets).len() == 0,
    ensures
        administrative_fields_missing(mets),
        rapporteurs_of(mets) is None,
        president_jury_of(mets) is None,
        membres_jury_of(mets) is None,
        ecoles_doctorales_of(mets) is None,
        partenaires_recherche_of(mets) is None,
{
    assert(thesis_admins_of(mets) =~= Seq::empty());
    lemma_no_source::<DateAccepted>();
    lemma_no_source::<Identifier>();
    lemma_no_source::<ThesisDegreeDiscipline>();
    lemma_no_source::<ThesisDegreeGrantor>();
    lemma_no_source::<TheseSurTravaux>();
    lemma_no_source::<Auteur>();
    lemma_no_source::<DirecteurThese>();
    lemma_no_source::<OaiSetSpec>();
    lemma_no_source::<Rapporteur>();
    lemma_no_source::<PresidentJury>();
    lemma_no_source::<MembreJury>();
    lemma_no_source::<EcoleDoctorale>();
    lemma_no_source::<PartenaireRecherche>();
}

/// A document without a descriptive record that counts yields, for every mandatory field that
/// is read from descriptive records, the error that names that field, and no subject heading.
pub proof fn lemma_no_descriptive_record(mets: Mets)
    requires
        thesis_records_of(mets).len() == 0,
    ensures
        descriptive_fields_missing(mets),
        sujet_rameau_of(mets) is None,
{
    assert(thesis_records_of(mets) =~= Seq::empty());
    lemma_no_source::<Title>();
    lemma_no_source::<Alternative>();
    lemma_no_source::<Abstract>();
    lemma_no_source::<Subject>();
    lemma_no_source::<Language>();
    lemma_no_source::<SujetRameau>();
}

/// A document whose administrative sections are all placeholders, or that has none, yields
/// for every mandatory field that depends on them the error that names that field.
pub proof fn lemma_placeholder_administrative_sections(mets: Mets)
    requires
        forall|i: int|
            0 <= i < mets.values@.len() ==> (#[trigger] mets.values@[i] matches MetsValues::AmdSec(
                section,
            ) ==> section.is_zero()),
    ensures
        thesis_admins_of(mets) == Seq::<ThesisAdmin>::empty(),
        administrative_fields_missing(mets),
{
    lemma_placeholder_sections_are_dropped(mets);
    lemma_no_source::<ThesisAdmin>();
    lemma_no_administrative_record(mets);
}

/// A document whose descriptive sections are all placeholders, or that has none, yields for
/// every mandatory field that depends on them the error that names that field.
pub proof fn lemma_placeholder_descriptive_sections(mets: Mets)
    requires
        forall|i: int|
            0 <= i < mets.values@.len() ==> (#[trigger] mets.values@[i] matches MetsValues::DmdSec(
                section,
            ) ==> section.is_zero()),
    ensures
        thesis_records_of(mets) == Seq::<ThesisRecord>::empty(),
        descriptive_fields_missing(mets),
        fails_with(star_gestion_of(mets), TefError::StarGestionNotFound),
        fails_with(step_gestion_of(mets), TefError::StepGestionNotFound),
{
    lemma_placeholder_sections_are_dropped(mets);
    lemma_no_source::<ThesisRecord>();
    lemma_no_source::<StarGestion>();
    lemma_no_source::<StepGestion>();
    lemma_no_descriptive_record(mets);
}

/// A document whose administrative records are all placeholders yields for every mandatory
/// field that depends on them the error that names that field.
pub proof fn lemma_placeholder_administrative_records(mets: Mets)
    requires
        forall|i: int, j: int|
            0 <= i < amd_secs_of(mets).len() && 0 <= j < ThesisAdmin::occurrences(
                amd_secs_of(mets)[i],
            ).len() ==> (#[trigger] ThesisAdmin::occurrences(
                amd_secs_of(mets)[i],
            )[j]).is_zero(),
    ensures
        thesis_admins_of(mets) == Seq::<ThesisAdmin>::empty(),
        administrative_fields_missing(mets),
{
    lemma_no_occurrence_counts::<ThesisAdmin>(amd_secs_of(mets));
    lemma_no_administrative_record(mets);
}

/// A document whose descriptive records are all placeholders yields for every mandatory field
/// that depends on them the error that names that field.
pub proof fn lemma_placeholder_descriptive_records(mets: Mets)
    requires
        forall|i: int, j: int|
            0 <= i < dmd_secs_of(mets).len() && 0 <= j < ThesisRecord::occurrences(
                dmd_secs_of(mets)[i],
            ).len() ==> (#[trigger] ThesisRecord::occurrences(dmd_secs_of(mets)[i])[j]).is_zero(),
    ensures
        thesis_records_of(mets) == Seq::<ThesisRecord>::empty(),
        descriptive_fields_missing(mets),
{
    lemma_no_occurrence_counts::<ThesisRecord>(dmd_secs_of(mets));
    lemma_no_descriptive_record(mets);
}

/// A candidate that does not count is as good as absent: with it or without it, the same
/// candidates are kept.
pub proof fn lemma_placeholder_is_absent<T: Policy>(before: Seq<T>, placeholder: T, after: Seq<T>)
    requires
        !placeholder.counts(),
    ensures
        kept(before + seq![placeholder] + after) == kept(before + after),
{
    let counts = |c: T| c.counts();
    Seq::filter_distributes_over_add(before + seq![placeholder], after, counts);
    Seq::filter_distributes_over_add(before, seq![placeholder], counts);
    Seq::filter_distributes_over_add(before, after, counts);
    lemma_nothing_counts(seq![placeholder]);
    assert(kept(before) + Seq::<T>::empty() =~= kept(before));
}

/// The records that two runs of children carry are those of the first run, followed by those
/// of the second.
pub proof fn lemma_payloads_of_runs<C: Holds<T>, T>(first: Seq<C>, second: Seq<C>)
    ensures
        payloads::<C, T>(first + second) == payloads::<C, T>(first) + payloads::<C, T>(second),
    decreases second.len(),
{
    if second.len() == 0 {
        assert(first + second =~= first);
        assert(payloads::<C, T>(first) + payloads::<C, T>(second) =~= payloads::<C, T>(first));
    } else {
        lemma_payloads_of_runs::<C, T>(first, second.drop_last());
        assert((first + second).drop_last() =~= first + second.drop_last());
        assert((first + second).last() == second.last());
        assert(payloads::<C, T>(first + second) =~= payloads::<C, T>(first) + payloads::<C, T>(
            second,
        ));
    }
}

/// A placeholder section is as good as absent. A document that differs from another only by
/// one administrative or descriptive section that is the zero value has the same sections
/// selected, the same records unwrapped, and so the same result of every accessor.
pub proof fn lemma_placeholder_section_is_absent(
    with: Mets,
    without: Mets,
    before: Seq<MetsValues>,
    placeholder: MetsValues,
    after: Seq<MetsValues>,
)
    requires
        with.values@ == before + seq![placeholder] + after,
        without.values@ == before + after,
        match placeholder {
            MetsValues::AmdSec(section) => section.is_zero(),
            MetsValues::DmdSec(section) => section.is_zero(),
            _ => false,
        },
    ensures
        amd_secs_of(with) == amd_secs_of(without),
        dmd_secs_of(with) == dmd_secs_of(without),
        thesis_admins_of(with) == thesis_admins_of(without),
        thesis_records_of(with) == thesis_records_of(without),
        date_accepted_of(with) == date_accepted_of(without),
        identifiers_of(with) == identifiers_of(without),
        thesis_degree_discipline_of(with) == thesis_degree_discipline_of(without),
        thesis_degree_grantors_of(with) == thesis_degree_grantors_of(without),
        these_sur_travaux_of(with) == these_sur_travaux_of(without),
        auteur_of(with) == auteur_of(without),
        directeurs_these_of(with) == directeurs_these_of(without),
        rapporteurs_of(with) == rapporteurs_of(without),
        president_jury_of(with) == president_jury_of(without),
        membres_jury_of(with) == membres_jury_of(without),
        ecoles_doctorales_of(with) == ecoles_doctorales_of(without),
        partenaires_recherche_of(with) == partenaires_recherche_of(without),
        oai_set_specs_of(with) == oai_set_specs_of(without),
        title_of(with) == title_of(without),
        alternatives_of(with) == alternatives_of(without),
        abstracts_of(with) == abstracts_of(without),
        subjects_of(with) == subjects_of(without),
        languages_of(with) == languages_of(without),
        sujet_rameau_of(with) == sujet_rameau_of(without),
        star_gestion_of(with) == star_gestion_of(without),
        step_gestion_of(with) == step_gestion_of(without),
{
    lemma_payloads_of_runs::<MetsValues, AmdSec>(before + seq![placeholder], after);
    lemma_payloads_of_runs::<MetsValues, AmdSec>(before, seq![placeholder]);
    lemma_payloads_of_runs::<MetsValues, AmdSec>(before, after);
    lemma_payloads_of_runs::<MetsValues, DmdSec>(before + seq![placeholder], after);
    lemma_payloads_of_runs::<MetsValues, DmdSec>(before, seq![placeholder]);
    lemma_payloads_of_runs::<MetsValues, DmdSec>(before, after);
    Seq::<MetsValues>::lemma_filter_map_singleton(
        placeholder,
        |c: MetsValues| Holds::<AmdSec>::payload(c),
    );
    Seq::<MetsValues>::lemma_filter_map_singleton(
        placeholder,
        |c: MetsValues| Holds::<DmdSec>::payload(c),
    );
    let amd_before = payloads::<MetsValues, AmdSec>(before);
    let amd_after = payloads::<MetsValues, AmdSec>(after);
    let dmd_before = payloads::<MetsValues, DmdSec>(before);
    let dmd_after = payloads::<MetsValues, DmdSec>(after);
    match placeholder {
        MetsValues::AmdSec(section) => {
            lemma_placeholder_is_absent(amd_before, section, amd_after);
            assert(dmd_before + Seq::<DmdSec>::empty() =~= dmd_before);
        },
        MetsValues::DmdSec(section) => {
            lemma_placeholder_is_absent(dmd_before, section, dmd_after);
            assert(amd_before + Seq::<AmdSec>::empty() =~= amd_before);
        },
        _ => {},
    }
}

/// The eight kinds of subject heading reduce alike. Whatever its kind, a heading whose entry
/// term has a text that is not empty has an entry term, and that term is not the zero value;
/// and the qualifiers it hands out are those it lists that are not the zero value, in the
/// order it lists them, with nothing else dropped.
pub proof fn lemma_headings_reduce_alike(values: SujetRameauValues)
    ensures
        values.heading().0.text@.len() > 0 ==> element_entree_of(values) == Ok::<
            ElementdEntree,
            TefError,
        >(values.heading().0) && !values.heading().0.is_zero(),
        element_entree_of(values) is Err <==> values.heading().0.is_zero(),
        match subdivisions_of(values) {
            Some(handed_out) => {
                let listed = optional_many(values.heading().1);
                &&& handed_out.len() == counting_positions(listed).len()
                &&& handed_out.len() > 0
                &&& forall|k: int|
                    0 <= k < handed_out.len() ==> handed_out[k] == listed[#[trigger] counting_positions(
                        listed,
                    )[k]]
                &&& forall|j: int, k: int|
                    0 <= j < k < handed_out.len() ==> counting_positions(listed)[j]
                        < counting_positions(listed)[k]
                &&& forall|i: int|
                    0 <= i < listed.len() ==> (!(#[trigger] listed[i]).is_zero()
                        <==> counting_positions(listed).contains(i))
            },
            None => forall|i: int|
                0 <= i < optional_many(values.heading().1).len() ==> (#[trigger] optional_many(
                    values.heading().1,
                )[i]).is_zero(),
        },
{
    let listed = optional_many(values.heading().1);
    lemma_kept_in_order(listed);
    if subdivisions_of(values) is None {
        assert forall|i: int| 0 <= i < listed.len() implies (#[trigger] listed[i]).is_zero() by {
            if !listed[i].is_zero() {
                assert(listed[i].counts());
                assert(counting_positions(listed).contains(i));
            }
        }
    }
}

/// Two references to equal records are equal, and so are two sequences of references to
/// equal records.
pub proof fn lemma_targets_determine_references<T>(a: Seq<&T>, b: Seq<&T>)
    requires
        targets(a) == targets(b),
    ensures
        a == b,
{
    assert(a.len() == targets(a).len());
    assert(b.len() == targets(b).len());
    assert forall|i: int| 0 <= i < a.len() implies a[i] == b[i] by {
        assert(targets(a)[i] == *a[i]);
        assert(targets(b)[i] == *b[i]);
    }
    assert(a =~= b);
}

/// An accessor has no state: what it returns is a function of the document, so two calls on
/// one document return equal results. Stated for each of the four shapes of a result: the
/// contract of every accessor fixes what the result refers to, and that fixes the result.
pub proof fn lemma_accessors_are_idempotent<T>(
    first: Result<&T, TefError>,
    second: Result<&T, TefError>,
    first_many: Result<Vec<&T>, TefError>,
    second_many: Result<Vec<&T>, TefError>,
    first_optional: Option<&T>,
    second_optional: Option<&T>,
    first_optional_many: Option<Vec<&T>>,
    second_optional_many: Option<Vec<&T>>,
)
    ensures
        value_of(first) == value_of(second) ==> first == second,
        values_of(first_many) == values_of(second_many) ==> match (first_many, second_many) {
            (Ok(a), Ok(b)) => a@ == b@,
            (Err(a), Err(b)) => a == b,
            _ => false,
        },
        optional_value_of(first_optional) == optional_value_of(second_optional) ==> first_optional
            == second_optional,
        optional_values_of(first_optional_many) == optional_values_of(second_optional_many)
            ==> match (first_optional_many, second_optional_many) {
            (Some(a), Some(b)) => a@ == b@,
            (None, None) => true,
            _ => false,
        },
{
    if values_of(first_many) == values_of(second_many) {
        if let (Ok(a), Ok(b)) = (first_many, second_many) {
            lemma_targets_determine_references(a@, b@);
        }
    }
    if optional_values_of(first_optional_many) == optional_values_of(second_optional_many) {
        if let (Some(a), Some(b)) = (first_optional_many, second_optional_many) {
            lemma_targets_determine_references(a@, b@);
        }
    }
}

} // verus!
