use tef::dc::{Identifier, Language, Subject, Title};
use tef::dcterms::{Abstract, Alternative, DateAccepted};
use tef::extractors::algebra::optional;
use tef::extractors::{
    abstracts, alternatives, amd_secs, auteur, date_accepted, directeurs_these, dmd_secs,
    ecoles_doctorales, identifiers, languages, membres_jury, oai_set_specs, partenaires_recherche,
    president_jury, rapporteurs, star_gestion, step_gestion, subjects, sujet_rameau,
    these_sur_travaux, thesis_admins, thesis_degree_discipline, thesis_degree_grantors,
    thesis_records, title, TefError,
};
use tef::gestion::star::StarGestion;
use tef::gestion::step::StepGestion;
use tef::mets::{
    AmdSec, AmdSecValues, DmdSec, FileSec, MdWrap, Mets, MetsHdr, MetsValues, RightsMD, StructMap,
    TechMD, XmlData, XmlDataValues,
};
use tef::mets_rights::RightsDeclarationMD;
use tef::tef::{
    Auteur, DirecteurThese, EcoleDoctorale, MembreJury, Nom, OaiSetSpec, PartenaireRecherche,
    PartenaireRechercheValues, Prenom, PresidentJury, Rapporteur, SujetRameau, SujetRameauValues,
    TheseSurTravaux, ThesisAdmin, ThesisDegreeDiscipline, ThesisDegreeGrantor, ThesisRecord,
    VedetteRameauNomCommun,
};

fn wrap(value: XmlDataValues) -> MdWrap {
    MdWrap { value: XmlData { value } }
}

fn admin_section(admins: Vec<ThesisAdmin>) -> MetsValues {
    let values = admins
        .into_iter()
        .map(|a| {
            AmdSecValues::TechMD(TechMD { id: String::from("a"), value: wrap(XmlDataValues::ThesisAdmin(a)) })
        })
        .collect();
    MetsValues::AmdSec(AmdSec { values })
}

fn descriptive_section(id: &str, record: ThesisRecord) -> MetsValues {
    MetsValues::DmdSec(DmdSec {
        id: String::from(id),
        created: None,
        value: wrap(XmlDataValues::ThesisRecord(record)),
    })
}

fn document(values: Vec<MetsValues>) -> Mets {
    Mets { objid: None, profile: None, values }
}

fn date(text: &str) -> DateAccepted {
    DateAccepted { type_: String::from("dcterms:W3CDTF"), text: String::from(text) }
}

fn titled(lang: &str, text: &str) -> Title {
    Title { lang: String::from(lang), type_: None, text: String::from(text) }
}

fn admin_with_date(text: &str) -> ThesisAdmin {
    ThesisAdmin { date_accepted: date(text), ..ThesisAdmin::default() }
}

fn record_with_title(lang: &str, text: &str) -> ThesisRecord {
    ThesisRecord { title: titled(lang, text), ..ThesisRecord::default() }
}

fn nom(text: &str) -> Nom {
    Nom(String::from(text))
}

#[test]
fn acceptance_date_and_title_of_a_plain_document() {
    let doc = document(vec![
        admin_section(vec![admin_with_date("2020-06-15")]),
        descriptive_section("d1", record_with_title("fr", "Example Thesis")),
    ]);
    let found = date_accepted(&doc).unwrap();
    assert_eq!(found.text, "2020-06-15");
    assert_eq!(found.text(), "2020-06-15");
    let found = title(&doc).unwrap();
    assert_eq!(found.lang, "fr");
    assert_eq!(found.text, "Example Thesis");
    assert_eq!(alternatives(&doc), Err(TefError::AlternativeTitleNotFound));
    assert_eq!(optional(alternatives(&doc)), None);
}

#[test]
fn no_administrative_section_fails_every_accessor_that_needs_one() {
    let doc = document(vec![descriptive_section("d1", record_with_title("fr", "Example Thesis"))]);
    assert_eq!(auteur(&doc), Err(TefError::AuteurNotFound));
    assert_eq!(date_accepted(&doc), Err(TefError::DateAcceptedNotFound));
    assert_eq!(thesis_degree_discipline(&doc), Err(TefError::ThesisDegreeDisciplineNotFound));
    assert_eq!(thesis_degree_grantors(&doc), Err(TefError::ThesisDegreeGrantorNotFound));
    assert_eq!(these_sur_travaux(&doc), Err(TefError::TheseSurTravauxNotFound));
    assert_eq!(directeurs_these(&doc), Err(TefError::DirecteurTheseNotFound));
    assert_eq!(oai_set_specs(&doc), Err(TefError::OaiSetSpecNotFound));
    assert_eq!(identifiers(&doc), Err(TefError::IdentifierNotFound));
    assert_eq!(rapporteurs(&doc), None);
    assert_eq!(president_jury(&doc), None);
    assert_eq!(membres_jury(&doc), None);
    assert_eq!(ecoles_doctorales(&doc), None);
    assert_eq!(partenaires_recherche(&doc), None);
    assert_eq!(title(&doc).unwrap().text, "Example Thesis");
}

#[test]
fn no_descriptive_section_fails_every_accessor_that_needs_one() {
    let doc = document(vec![admin_section(vec![admin_with_date("2020-06-15")])]);
    assert_eq!(title(&doc), Err(TefError::TitleNotFound));
    assert_eq!(alternatives(&doc), Err(TefError::AlternativeTitleNotFound));
    assert_eq!(abstracts(&doc), Err(TefError::AbstractNotFound));
    assert_eq!(subjects(&doc), Err(TefError::SubjectNotFound));
    assert_eq!(languages(&doc), Err(TefError::LanguageNotFound));
    assert_eq!(star_gestion(&doc), Err(TefError::StarGestionNotFound));
    assert_eq!(step_gestion(&doc), Err(TefError::StepGestionNotFound));
    assert_eq!(sujet_rameau(&doc), None);
    assert_eq!(date_accepted(&doc).unwrap().text, "2020-06-15");
}

#[test]
fn empty_document_has_nothing() {
    let doc = Mets::default();
    assert!(dmd_secs(&doc).is_empty());
    assert!(amd_secs(&doc).is_empty());
    assert!(thesis_admins(&doc).is_empty());
    assert!(thesis_records(&doc).is_empty());
    assert_eq!(date_accepted(&doc), Err(TefError::DateAcceptedNotFound));
    assert_eq!(title(&doc), Err(TefError::TitleNotFound));
}

#[test]
fn placeholder_sections_are_not_selected() {
    let doc = document(vec![
        MetsValues::AmdSec(AmdSec::default()),
        MetsValues::DmdSec(DmdSec::default()),
        MetsValues::AmdSec(AmdSec::default()),
    ]);
    assert!(amd_secs(&doc).is_empty());
    assert!(dmd_secs(&doc).is_empty());
    assert_eq!(date_accepted(&doc), Err(TefError::DateAcceptedNotFound));
    assert_eq!(auteur(&doc), Err(TefError::AuteurNotFound));
    assert_eq!(title(&doc), Err(TefError::TitleNotFound));
    assert_eq!(languages(&doc), Err(TefError::LanguageNotFound));
}

#[test]
fn placeholder_records_are_not_unwrapped() {
    let doc = document(vec![
        admin_section(vec![ThesisAdmin::default(), ThesisAdmin::default()]),
        descriptive_section("d1", ThesisRecord::default()),
    ]);
    assert_eq!(amd_secs(&doc).len(), 1);
    assert_eq!(dmd_secs(&doc).len(), 1);
    assert!(thesis_admins(&doc).is_empty());
    assert!(thesis_records(&doc).is_empty());
    assert_eq!(date_accepted(&doc), Err(TefError::DateAcceptedNotFound));
    assert_eq!(thesis_degree_discipline(&doc), Err(TefError::ThesisDegreeDisciplineNotFound));
    assert_eq!(title(&doc), Err(TefError::TitleNotFound));
    assert_eq!(subjects(&doc), Err(TefError::SubjectNotFound));
}

#[test]
fn sections_of_every_kind_are_kept_apart() {
    let doc = document(vec![
        MetsValues::MetsHdr(MetsHdr::default()),
        descriptive_section("d1", record_with_title("fr", "Un")),
        admin_section(vec![admin_with_date("2001-01-01")]),
        MetsValues::FileSec(FileSec::default()),
        descriptive_section("d2", record_with_title("en", "Two")),
        MetsValues::StructMap(StructMap::default()),
        admin_section(vec![admin_with_date("2002-02-02")]),
    ]);
    let d = dmd_secs(&doc);
    assert_eq!(d.len(), 2);
    assert_eq!(d[0].id, "d1");
    assert_eq!(d[1].id, "d2");
    assert_eq!(amd_secs(&doc).len(), 2);
    let admins = thesis_admins(&doc);
    assert_eq!(admins.len(), 2);
    assert_eq!(admins[0].date_accepted.text, "2001-01-01");
    assert_eq!(admins[1].date_accepted.text, "2002-02-02");
    let records = thesis_records(&doc);
    assert_eq!(records.len(), 2);
    assert_eq!(records[0].title.text, "Un");
    assert_eq!(records[1].title.text, "Two");
}

#[test]
fn rights_blocks_and_other_payloads_are_passed_over() {
    let rights = AmdSecValues::RightsMD(RightsMD {
        id: Some(String::from("r")),
        value: wrap(XmlDataValues::RightsDeclarationMD(RightsDeclarationMD::default())),
    });
    let unknown = AmdSecValues::TechMD(TechMD { id: String::from("t0"), value: wrap(XmlDataValues::Other) });
    let rights_with_admin = AmdSecValues::RightsMD(RightsMD {
        id: None,
        value: wrap(XmlDataValues::ThesisAdmin(admin_with_date("1999-09-09"))),
    });
    let good = AmdSecValues::TechMD(TechMD {
        id: String::from("t1"),
        value: wrap(XmlDataValues::ThesisAdmin(admin_with_date("2010-10-10"))),
    });
    let doc = document(vec![
        MetsValues::AmdSec(AmdSec { values: vec![rights, unknown, rights_with_admin, good] }),
        MetsValues::DmdSec(DmdSec {
            id: String::from("x"),
            created: None,
            value: wrap(XmlDataValues::ThesisAdmin(admin_with_date("1888-08-08"))),
        }),
    ]);
    let admins = thesis_admins(&doc);
    assert_eq!(admins.len(), 1);
    assert_eq!(date_accepted(&doc).unwrap().text, "2010-10-10");
    assert_eq!(dmd_secs(&doc).len(), 1);
    assert!(thesis_records(&doc).is_empty());
}

#[test]
fn first_acceptance_date_wins() {
    let doc = document(vec![
        admin_section(vec![admin_with_date(""), admin_with_date("2019-01-01")]),
        admin_section(vec![admin_with_date("2020-02-02"), admin_with_date("2021-03-03")]),
    ]);
    assert_eq!(date_accepted(&doc).unwrap().text, "2019-01-01");
    assert_eq!(optional(date_accepted(&doc)).unwrap().text, "2019-01-01");
}

#[test]
fn acceptance_date_without_text_does_not_count() {
    let doc = document(vec![admin_section(vec![admin_with_date("")])]);
    assert_eq!(thesis_admins(&doc).len(), 1);
    assert_eq!(date_accepted(&doc), Err(TefError::DateAcceptedNotFound));
    assert_eq!(optional(date_accepted(&doc)), None);
}

#[test]
fn title_needs_text_and_language() {
    let no_lang = document(vec![descriptive_section("d", record_with_title("", "Untitled"))]);
    assert_eq!(title(&no_lang), Err(TefError::TitleNotFound));
    let no_text = document(vec![descriptive_section("d", record_with_title("fr", ""))]);
    assert_eq!(title(&no_text), Err(TefError::TitleNotFound));
    let second = document(vec![
        descriptive_section("d1", record_with_title("", "Untitled")),
        descriptive_section("d2", record_with_title("en", "Second")),
        descriptive_section("d3", record_with_title("en", "Third")),
    ]);
    assert_eq!(title(&second).unwrap().text, "Second");
}

#[test]
fn discipline_counts_with_a_language_alone() {
    let mut admin = ThesisAdmin::default();
    admin.thesis_degree.discipline =
        ThesisDegreeDiscipline { lang: String::from("fr"), text: String::new() };
    let doc = document(vec![admin_section(vec![admin])]);
    let found = thesis_degree_discipline(&doc).unwrap();
    assert_eq!(found.lang, "fr");
    assert_eq!(found.text, "");
}

#[test]
fn discipline_is_the_first_that_counts() {
    let mut first = admin_with_date("2020-01-01");
    first.thesis_degree.discipline = ThesisDegreeDiscipline::default();
    let mut second = ThesisAdmin::default();
    second.thesis_degree.discipline =
        ThesisDegreeDiscipline { lang: String::from("fr"), text: String::from("Physique") };
    let mut third = ThesisAdmin::default();
    third.thesis_degree.discipline =
        ThesisDegreeDiscipline { lang: String::from("fr"), text: String::from("Chimie") };
    let doc = document(vec![admin_section(vec![first, second]), admin_section(vec![third])]);
    assert_eq!(thesis_degree_discipline(&doc).unwrap().text, "Physique");
}

#[test]
fn grantors_need_a_name() {
    let mut admin = ThesisAdmin::default();
    admin.thesis_degree.grantor = vec![
        ThesisDegreeGrantor::default(),
        ThesisDegreeGrantor { nom: nom("Paris 1"), autorite_interne: None, autorite_externe: None },
        ThesisDegreeGrantor { nom: nom(""), autorite_interne: Some(vec![]), autorite_externe: None },
        ThesisDegreeGrantor { nom: nom("Lyon 2"), autorite_interne: None, autorite_externe: None },
    ];
    let doc = document(vec![admin_section(vec![admin])]);
    let found = thesis_degree_grantors(&doc).unwrap();
    assert_eq!(found.len(), 2);
    assert_eq!(found[0].nom.0, "Paris 1");
    assert_eq!(found[1].nom.0, "Lyon 2");
}

#[test]
fn grantors_all_without_name_are_an_error() {
    let mut admin = ThesisAdmin::default();
    admin.thesis_degree.grantor = vec![ThesisDegreeGrantor::default(), ThesisDegreeGrantor::default()];
    admin.avis_jury.0 = String::from("oui");
    let doc = document(vec![admin_section(vec![admin])]);
    assert_eq!(thesis_admins(&doc).len(), 1);
    assert_eq!(thesis_degree_grantors(&doc), Err(TefError::ThesisDegreeGrantorNotFound));
    assert_eq!(optional(thesis_degree_grantors(&doc)), None);
}

#[test]
fn these_sur_travaux_and_author() {
    let admin = ThesisAdmin {
        these_sur_travaux: TheseSurTravaux(String::from("non")),
        auteur: Auteur { nom: nom("Curie"), prenom: Prenom(String::from("Marie")), ..Auteur::default() },
        ..ThesisAdmin::default()
    };
    let doc = document(vec![admin_section(vec![ThesisAdmin::default(), admin])]);
    assert_eq!(these_sur_travaux(&doc).unwrap().0, "non");
    let found = auteur(&doc).unwrap();
    assert_eq!(found.nom.0, "Curie");
    assert_eq!(found.prenom().0, "Marie");
}

#[test]
fn author_without_name_still_counts() {
    let admin = ThesisAdmin {
        auteur: Auteur { nationalite: Some(String::from("FR")), ..Auteur::default() },
        ..ThesisAdmin::default()
    };
    let doc = document(vec![admin_section(vec![admin])]);
    assert_eq!(auteur(&doc).unwrap().nationalite, Some(String::from("FR")));
}

fn directeur(name: &str) -> DirecteurThese {
    DirecteurThese { nom: nom(name), ..DirecteurThese::default() }
}

#[test]
fn supervisors_come_out_in_document_order() {
    let first = ThesisAdmin {
        directeur_these: vec![directeur("A"), DirecteurThese::default(), directeur("B")],
        ..ThesisAdmin::default()
    };
    let second = ThesisAdmin {
        directeur_these: vec![
            DirecteurThese { prenom: Prenom(String::from("only")), ..DirecteurThese::default() },
            directeur("C"),
        ],
        ..ThesisAdmin::default()
    };
    let third = ThesisAdmin { directeur_these: vec![directeur("D")], ..ThesisAdmin::default() };
    let doc = document(vec![admin_section(vec![first, second]), admin_section(vec![third])]);
    let found = directeurs_these(&doc).unwrap();
    let names: Vec<&str> = found.iter().map(|d| d.nom.0.as_str()).collect();
    assert_eq!(names, vec!["A", "B", "C", "D"]);
}

#[test]
fn supervisors_without_name_are_an_error() {
    let admin = ThesisAdmin {
        directeur_these: vec![
            DirecteurThese::default(),
            DirecteurThese { prenom: Prenom(String::from("x")), ..DirecteurThese::default() },
        ],
        ..ThesisAdmin::default()
    };
    let doc = document(vec![admin_section(vec![admin])]);
    assert_eq!(directeurs_these(&doc), Err(TefError::DirecteurTheseNotFound));
}

#[test]
fn jury_roles_are_optional() {
    let admin = ThesisAdmin {
        rapporteur: vec![
            Rapporteur { nom: nom("R1"), ..Rapporteur::default() },
            Rapporteur::default(),
            Rapporteur { nom: nom("R2"), ..Rapporteur::default() },
        ],
        president_jury: Some(PresidentJury { nom: nom("P"), ..PresidentJury::default() }),
        membre_jury: vec![MembreJury::default(), MembreJury { nom: nom("M"), ..MembreJury::default() }],
        ..ThesisAdmin::default()
    };
    let doc = document(vec![admin_section(vec![admin])]);
    let found = rapporteurs(&doc).unwrap();
    assert_eq!(found.len(), 2);
    assert_eq!(found[0].nom.0, "R1");
    assert_eq!(found[1].nom.0, "R2");
    assert_eq!(president_jury(&doc).unwrap().nom.0, "P");
    let found = membres_jury(&doc).unwrap();
    assert_eq!(found.len(), 1);
    assert_eq!(found[0].nom.0, "M");
}

#[test]
fn jury_roles_absent_without_error() {
    let admin = ThesisAdmin {
        rapporteur: vec![Rapporteur::default()],
        president_jury: Some(PresidentJury::default()),
        membre_jury: vec![],
        avis_jury: tef::tef::AvisJury(String::from("oui")),
        ..ThesisAdmin::default()
    };
    let doc = document(vec![admin_section(vec![admin])]);
    assert_eq!(thesis_admins(&doc).len(), 1);
    assert_eq!(rapporteurs(&doc), None);
    assert_eq!(president_jury(&doc), None);
    assert_eq!(membres_jury(&doc), None);
}

#[test]
fn president_is_the_first_named_one() {
    let first = ThesisAdmin {
        president_jury: Some(PresidentJury { prenom: Prenom(String::from("x")), ..PresidentJury::default() }),
        ..ThesisAdmin::default()
    };
    let second = ThesisAdmin {
        president_jury: Some(PresidentJury { nom: nom("Second"), ..PresidentJury::default() }),
        ..ThesisAdmin::default()
    };
    let third = ThesisAdmin {
        president_jury: Some(PresidentJury { nom: nom("Third"), ..PresidentJury::default() }),
        ..ThesisAdmin::default()
    };
    let doc = document(vec![admin_section(vec![first, second, third])]);
    assert_eq!(president_jury(&doc).unwrap().nom.0, "Second");
}

#[test]
fn schools_and_partners() {
    let admin = ThesisAdmin {
        ecole_doctorale: vec![
            EcoleDoctorale::default(),
            EcoleDoctorale { nom: nom("ED 1"), ..EcoleDoctorale::default() },
            EcoleDoctorale { autorite_interne: Some(vec![]), ..EcoleDoctorale::default() },
        ],
        partenaire_recherche: vec![
            PartenaireRecherche { type_: PartenaireRechercheValues::Laboratoire, ..PartenaireRecherche::default() },
            PartenaireRecherche {
                type_: PartenaireRechercheValues::Entreprise,
                nom: nom("ACME"),
                ..PartenaireRecherche::default()
            },
            PartenaireRecherche { nom: nom("Labo"), ..PartenaireRecherche::default() },
        ],
        ..ThesisAdmin::default()
    };
    let doc = document(vec![admin_section(vec![admin])]);
    let schools = ecoles_doctorales(&doc).unwrap();
    assert_eq!(schools.len(), 1);
    assert_eq!(schools[0].nom.0, "ED 1");
    let partners = partenaires_recherche(&doc).unwrap();
    assert_eq!(partners.len(), 2);
    assert_eq!(partners[0].nom.0, "ACME");
    assert_eq!(partners[0].type_, PartenaireRechercheValues::Entreprise);
    assert_eq!(partners[1].nom.0, "Labo");
    assert_eq!(partners[1].type_, PartenaireRechercheValues::AutreType);
}

#[test]
fn oai_sets_and_identifiers() {
    let admin = ThesisAdmin {
        oai_set_spec: vec![
            OaiSetSpec(String::from("ddc:530")),
            OaiSetSpec(String::new()),
            OaiSetSpec(String::from("ddc:540")),
        ],
        identifier: vec![
            Identifier::default(),
            Identifier { type_: String::from("tef:NNT"), text: String::from("2020ABCD0001") },
            Identifier { type_: String::from("tef:nationalThesisPID"), text: String::new() },
        ],
        ..ThesisAdmin::default()
    };
    let doc = document(vec![admin_section(vec![admin])]);
    let sets = oai_set_specs(&doc).unwrap();
    assert_eq!(sets.len(), 2);
    assert_eq!(sets[0].0, "ddc:530");
    assert_eq!(sets[1].0, "ddc:540");
    let ids = identifiers(&doc).unwrap();
    assert_eq!(ids.len(), 2);
    assert_eq!(ids[0].text, "2020ABCD0001");
    assert_eq!(ids[1].type_, "tef:nationalThesisPID");
    assert_eq!(optional(identifiers(&doc)).unwrap().len(), 2);
}

#[test]
fn identifiers_all_placeholders_are_an_error() {
    let admin = ThesisAdmin {
        identifier: vec![Identifier::default()],
        avis_jury: tef::tef::AvisJury(String::from("oui")),
        ..ThesisAdmin::default()
    };
    let doc = document(vec![admin_section(vec![admin])]);
    assert_eq!(identifiers(&doc), Err(TefError::IdentifierNotFound));
    assert_eq!(oai_set_specs(&doc), Err(TefError::OaiSetSpecNotFound));
}

#[test]
fn titles_in_other_languages_abstracts_subjects_languages() {
    let record = ThesisRecord {
        title: titled("fr", "Titre"),
        alternative: Some(vec![
            Alternative { lang: String::from("en"), text: String::from("Title") },
            Alternative { lang: String::new(), text: String::from("no language") },
            Alternative::default(),
            Alternative { lang: String::from("de"), text: String::from("Titel") },
        ]),
        abstract_: Some(vec![
            Abstract { lang: String::from("fr"), text: String::new() },
            Abstract { lang: String::from("fr"), text: String::from("Résumé") },
        ]),
        subject: Some(vec![
            Subject { lang: None, type_: None, text: String::from("physique") },
            Subject { lang: Some(String::from("fr")), type_: None, text: String::new() },
            Subject { lang: Some(String::from("en")), type_: None, text: String::from("physics") },
        ]),
        language: vec![
            Language { type_: String::from("dcterms:RFC3066"), text: String::from("fr") },
            Language::default(),
            Language { type_: String::from("dcterms:RFC3066"), text: String::new() },
        ],
        ..ThesisRecord::default()
    };
    let doc = document(vec![descriptive_section("d", record)]);
    let found = alternatives(&doc).unwrap();
    assert_eq!(found.len(), 2);
    assert_eq!(found[0].text, "Title");
    assert_eq!(found[1].text, "Titel");
    let found = abstracts(&doc).unwrap();
    assert_eq!(found.len(), 1);
    assert_eq!(found[0].text, "Résumé");
    let found = subjects(&doc).unwrap();
    assert_eq!(found.len(), 2);
    assert_eq!(found[0].text, "physique");
    assert_eq!(found[1].text, "physics");
    let found = languages(&doc).unwrap();
    assert_eq!(found.len(), 2);
    assert_eq!(found[0].text, "fr");
    assert_eq!(found[1].text, "");
}

#[test]
fn repeated_fields_span_records() {
    let one = ThesisRecord {
        language: vec![Language { type_: String::new(), text: String::from("fr") }],
        subject: None,
        ..ThesisRecord::default()
    };
    let two = ThesisRecord {
        language: vec![
            Language { type_: String::new(), text: String::from("en") },
            Language { type_: String::new(), text: String::from("de") },
        ],
        subject: Some(vec![]),
        ..ThesisRecord::default()
    };
    let doc = document(vec![descriptive_section("d1", one), descriptive_section("d2", two)]);
    let found = languages(&doc).unwrap();
    let texts: Vec<&str> = found.iter().map(|l| l.text.as_str()).collect();
    assert_eq!(texts, vec!["fr", "en", "de"]);
    assert_eq!(subjects(&doc), Err(TefError::SubjectNotFound));
    assert_eq!(title(&doc), Err(TefError::TitleNotFound));
}

#[test]
fn subject_headings_of_the_first_record_that_has_some() {
    let heading = SujetRameau {
        values: vec![Some(SujetRameauValues::VedetteRameauNomCommun(VedetteRameauNomCommun::default())), None],
    };
    let without = record_with_title("fr", "Sans");
    let empty = ThesisRecord { sujet_rameau: Some(SujetRameau::default()), ..record_with_title("fr", "Vide") };
    let with = ThesisRecord { sujet_rameau: Some(heading), ..record_with_title("fr", "Avec") };
    let doc = document(vec![
        descriptive_section("d1", without),
        descriptive_section("d2", empty),
        descriptive_section("d3", with),
    ]);
    assert_eq!(sujet_rameau(&doc).unwrap().values.len(), 2);
    let none = document(vec![descriptive_section("d1", record_with_title("fr", "Sans"))]);
    assert_eq!(sujet_rameau(&none), None);
}

#[test]
fn workflow_records() {
    let star = StarGestion { code_etab: String::from("PA01"), ..StarGestion::default() };
    let step = StepGestion { id_sujet: String::from("s42"), ..StepGestion::default() };
    let doc = document(vec![
        MetsValues::DmdSec(DmdSec {
            id: String::from("g0"),
            created: None,
            value: wrap(XmlDataValues::StarGestion(StarGestion::default())),
        }),
        MetsValues::DmdSec(DmdSec {
            id: String::from("g1"),
            created: None,
            value: wrap(XmlDataValues::StepGestion(step)),
        }),
        MetsValues::DmdSec(DmdSec {
            id: String::from("g2"),
            created: None,
            value: wrap(XmlDataValues::StarGestion(star)),
        }),
    ]);
    assert_eq!(star_gestion(&doc).unwrap().code_etab, "PA01");
    assert_eq!(step_gestion(&doc).unwrap().id_sujet(), "s42");
    assert_eq!(optional(star_gestion(&doc)).unwrap().code_etab, "PA01");
    assert_eq!(title(&doc), Err(TefError::TitleNotFound));
}

#[test]
fn accessors_are_idempotent() {
    let admin = ThesisAdmin {
        directeur_these: vec![directeur("A"), directeur("B")],
        ..admin_with_date("2020-06-15")
    };
    let doc = document(vec![
        admin_section(vec![admin]),
        descriptive_section("d1", record_with_title("fr", "Example Thesis")),
    ]);
    let copy = doc.clone();
    assert_eq!(date_accepted(&doc), date_accepted(&doc));
    assert_eq!(directeurs_these(&doc), directeurs_these(&doc));
    assert_eq!(title(&doc), title(&doc));
    assert_eq!(rapporteurs(&doc), rapporteurs(&doc));
    assert_eq!(alternatives(&doc), alternatives(&doc));
    assert_eq!(thesis_admins(&doc), thesis_admins(&doc));
    assert_eq!(doc, copy);
}

#[test]
fn optional_forgets_the_error() {
    assert_eq!(optional::<u8>(Ok(3)), Some(3));
    assert_eq!(optional::<u8>(Err(TefError::TitleNotFound)), None);
}
