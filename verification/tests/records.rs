use tef::dc::{Coverage, Identifier, Subject, Title, Type};
use tef::dcterms::{DateAccepted, Spatial, Temporal};
use tef::extractors::algebra::{Extract, Holds, Policy};
use tef::extractors::TefError;
use tef::gestion::star::{Cines, StarGestion};
use tef::gestion::step::{Nnt, StepGestion};
use tef::mads::NamePart;
use tef::mets::{
    Agent, AmdSec, AmdSecValues, Div, DivValues, DmdSec, File, FileGrp, FileGrpValues, Fptr,
    MdWrap, Mets, MetsValues, StructMap, TechMD, XmlData, XmlDataValues,
};
use tef::mets_rights::{Permissions, RightsHolder};
use tef::tef::{
    empty_string_as_none, Auteur, DateNaissance, Encodage, EncodageValues, FormatFichier,
    FormatFichierValues, MetaFichier, Nom, PartenaireRecherche, PartenaireRechercheValues,
    RessourceExterneDescription, SoutenancePrevue, ThesisAdmin, ThesisDegree, ThesisDegreeLevel,
    ThesisDegreeLevelValues, ThesisRecord, Vie,
};
use tef::tolerant::Tolerant;

#[test]
fn default_records_are_zero_values() {
    assert!(Mets::default().is_default());
    assert!(DmdSec::default().is_default());
    assert!(AmdSec::default().is_default());
    assert!(ThesisAdmin::default().is_default());
    assert!(ThesisRecord::default().is_default());
    assert!(ThesisDegree::default().is_default());
    assert!(Auteur::default().is_default());
    assert!(Title::default().is_default());
    assert!(DateAccepted::default().is_default());
    assert!(MdWrap::default().is_default());
    assert!(XmlData::default().is_default());
    assert!(XmlDataValues::default().is_default());
    assert!(Div::default().is_default());
    assert!(FileGrp::default().is_default());
    assert!(File::default().is_default());
    assert!(Permissions::default().is_default());
    assert!(RightsHolder::default().is_default());
    assert!(RessourceExterneDescription::default().is_default());
    assert!(MetaFichier::default().is_default());
    assert!(StarGestion::default().is_default());
    assert!(StepGestion::default().is_default());
    assert!(Cines::default().is_default());
    assert!(Nnt::default().is_default());
    assert!(Vie::default().is_default());
    assert!(SoutenancePrevue::default().is_default());
    assert!(Coverage::default().is_default());
    assert!(tef::gestion::star::Entree::default().is_default());
    assert!(tef::gestion::step::Star.is_default());
}

#[test]
fn default_fields_hold_their_zero_values() {
    let admin = ThesisAdmin::default();
    assert_eq!(admin.auteur, Auteur::default());
    assert_eq!(admin.auteur.nom.0, "");
    assert_eq!(admin.auteur.nom_de_naissance, None);
    assert!(admin.identifier.is_empty());
    assert_eq!(admin.date_accepted.text, "");
    assert_eq!(admin.president_jury, None);
    assert_eq!(admin.mads_authority, None);
    assert_eq!(admin.thesis_degree.level.text, ThesisDegreeLevelValues::Doctorat);
    assert_eq!(admin.thesis_degree.contrat_doctoral, None);
    assert_eq!(admin.vie.derogation_dix_ans, "");
    let record = ThesisRecord::default();
    assert_eq!(record.title, Title { lang: String::new(), type_: None, text: String::new() });
    assert_eq!(record.alternative, None);
    assert!(record.language.is_empty());
    let mets = Mets::default();
    assert_eq!(mets.objid, None);
    assert!(mets.values.is_empty());
    assert_eq!(DmdSec::default().value.value.value, XmlDataValues::Other);
    assert!(RessourceExterneDescription::default().0.is_empty());
}

#[test]
fn designated_variants_are_the_defaults() {
    assert_eq!(XmlDataValues::default(), XmlDataValues::Other);
    assert_eq!(EncodageValues::default(), EncodageValues::Unicode);
    assert_eq!(FormatFichierValues::default(), FormatFichierValues::AutreFormat);
    assert_eq!(PartenaireRechercheValues::default(), PartenaireRechercheValues::AutreType);
    assert_eq!(ThesisDegreeLevelValues::default(), ThesisDegreeLevelValues::Doctorat);
    assert!(EncodageValues::Unicode.is_default());
    assert!(!EncodageValues::ASCII.is_default());
    assert!(!EncodageValues::Latin1.is_default());
    assert!(!FormatFichierValues::PDF.is_default());
    assert!(!PartenaireRechercheValues::Laboratoire.is_default());
    assert!(!ThesisDegreeLevelValues::DoctoratEtat.is_default());
    assert!(!ThesisDegreeLevelValues::Doctorat3eCycle.is_default());
    assert!(!XmlDataValues::ThesisAdmin(ThesisAdmin::default()).is_default());
    assert!(Encodage::default().is_default());
    assert!(!Encodage { text: EncodageValues::ASCII }.is_default());
    assert!(!FormatFichier { text: FormatFichierValues::XML }.is_default());
    assert!(!ThesisDegreeLevel { text: ThesisDegreeLevelValues::DoctoratEtat }.is_default());
}

#[test]
fn any_field_that_is_set_makes_a_record_differ_from_its_zero_value() {
    assert!(!Title { lang: String::from("fr"), ..Title::default() }.is_default());
    assert!(!Title { type_: Some(String::new()), ..Title::default() }.is_default());
    assert!(!Title { text: String::from("t"), ..Title::default() }.is_default());
    assert!(!Subject { lang: Some(String::from("fr")), ..Subject::default() }.is_default());
    assert!(!Type { text: String::from("Text"), ..Type::default() }.is_default());
    assert!(!Identifier { type_: String::from("k"), ..Identifier::default() }.is_default());
    assert!(!Spatial { lang: Some(String::new()), ..Spatial::default() }.is_default());
    assert!(!Temporal { lang: String::from("fr"), ..Temporal::default() }.is_default());
    assert!(!Nom(String::from("n")).is_default());
    assert!(!Auteur { autorite_externe: Some(vec![]), ..Auteur::default() }.is_default());
    assert!(!Auteur { date_naissance: Some(DateNaissance::default()), ..Auteur::default() }.is_default());
    assert!(!ThesisAdmin { identifier: vec![Identifier::default()], ..ThesisAdmin::default() }.is_default());
    assert!(!ThesisAdmin { president_jury: Some(Default::default()), ..ThesisAdmin::default() }.is_default());
    assert!(!ThesisAdmin {
        vie: Vie { date_abandon: Some(String::new()), ..Vie::default() },
        ..ThesisAdmin::default()
    }
    .is_default());
    assert!(!PartenaireRecherche {
        type_: PartenaireRechercheValues::Fondation,
        ..PartenaireRecherche::default()
    }
    .is_default());
    assert!(!DmdSec { created: Some(String::from("2020")), ..DmdSec::default() }.is_default());
    assert!(!DmdSec {
        value: MdWrap { value: XmlData { value: XmlDataValues::ThesisRecord(ThesisRecord::default()) } },
        ..DmdSec::default()
    }
    .is_default());
    assert!(!AmdSec { values: vec![AmdSecValues::TechMD(TechMD::default())] }.is_default());
    assert!(!Mets { profile: Some(String::from("p")), ..Mets::default() }.is_default());
    assert!(!Permissions { copy: Some(false), ..Permissions::default() }.is_default());
    assert!(!Agent { role: String::from("CREATOR"), ..Agent::default() }.is_default());
    assert!(!NamePart { type_: String::from("family"), ..NamePart::default() }.is_default());
    let mut described = RessourceExterneDescription::default();
    described.0.insert(String::from("title"), String::from("t"));
    assert!(!described.is_default());
}

#[test]
fn getters_hand_out_the_fields() {
    let t = Title { lang: String::from("fr"), type_: Some(String::from("k")), text: String::from("x") };
    assert_eq!(t.lang(), "fr");
    assert_eq!(t.type_(), &Some(String::from("k")));
    assert_eq!(t.text(), "x");
    let section = DmdSec { id: String::from("d1"), created: Some(String::from("c")), ..DmdSec::default() };
    assert_eq!(section.id(), "d1");
    assert_eq!(section.created(), &Some(String::from("c")));
    assert_eq!(section.value().value().value(), &XmlDataValues::Other);
    let mets = Mets { values: vec![MetsValues::DmdSec(section.clone())], ..Mets::default() };
    assert_eq!(mets.values().len(), 1);
    assert_eq!(mets.objid(), &None);
    let group = FileGrp { use_: Some(String::from("archive")), ..FileGrp::default() };
    assert_eq!(group.use_(), &Some(String::from("archive")));
    let record = ThesisRecord { abstract_: Some(vec![]), ..ThesisRecord::default() };
    assert_eq!(record.abstract_(), &Some(vec![]));
    let admin = ThesisAdmin::default();
    assert_eq!(admin.thesis_degree().discipline(), &Default::default());
    assert_eq!(admin.date_accepted(), &DateAccepted::default());
}

#[test]
fn divisions_nest_and_clone() {
    let leaf = Div {
        type_: String::from("EDITION"),
        values: vec![DivValues::Fptr(Fptr { fileid: Some(String::from("f1")) })],
        ..Div::default()
    };
    let middle = Div {
        type_: String::from("VERSION"),
        values: vec![DivValues::Div(Box::new(leaf.clone())), DivValues::Div(Box::new(leaf.clone()))],
        ..Div::default()
    };
    let root = Div {
        type_: String::from("THESE"),
        dmdid: Some(String::from("d1")),
        amdid: Some(String::from("a1")),
        id: Some(String::from("i")),
        contentids: Some(String::from("c")),
        values: vec![DivValues::Div(Box::new(middle))],
    };
    let copy = root.clone();
    assert_eq!(copy, root);
    let map = StructMap { type_: String::from("logical"), value: vec![root] };
    assert_eq!(map.clone(), map);
    match &map.value[0].values[0] {
        DivValues::Div(inner) => assert_eq!(inner.values.len(), 2),
        DivValues::Fptr(_) => panic!("a division was expected"),
    }
}

#[test]
fn file_groups_nest_and_clone() {
    let file = File { id: String::from("f1"), admid: String::from("a"), ..File::default() };
    let inner = FileGrp { id: Some(String::from("g2")), values: vec![FileGrpValues::File(file)], ..FileGrp::default() };
    let outer = FileGrp {
        use_: Some(String::from("archive")),
        id: Some(String::from("g1")),
        values: vec![FileGrpValues::FileGrp(inner.clone()), FileGrpValues::FileGrp(inner)],
    };
    assert_eq!(outer.clone(), outer);
    assert!(!outer.is_default());
}

#[test]
fn empty_text_binds_to_none() {
    assert_eq!(empty_string_as_none(None), None);
    assert_eq!(empty_string_as_none(Some(String::new())), None);
    assert_eq!(empty_string_as_none(Some(String::from("FR"))), Some(String::from("FR")));
    assert_eq!(empty_string_as_none(Some(String::from(" "))), Some(String::from(" ")));
}

#[test]
fn date_of_birth_is_written_as_it_was_read() {
    assert_eq!(DateNaissance(String::from("1867-11-07")).to_string(), "1867-11-07");
    assert_eq!(DateNaissance::default().to_string(), "");
}

#[test]
fn every_error_names_its_field() {
    let all = [
        (TefError::DateAcceptedNotFound, "date accetped not found"),
        (TefError::ThesisDegreeDisciplineNotFound, "thesis degree discipline not found"),
        (TefError::ThesisDegreeGrantorNotFound, "thesis degree grantor not found"),
        (TefError::TheseSurTravauxNotFound, "theses sur travaux not found"),
        (TefError::AuteurNotFound, "auteur not found"),
        (TefError::DirecteurTheseNotFound, "directeur de thèse not found"),
        (TefError::OaiSetSpecNotFound, "oai set not found"),
        (TefError::TitleNotFound, "title not found"),
        (TefError::AlternativeTitleNotFound, "alternative title not found"),
        (TefError::AbstractNotFound, "abstract not found"),
        (TefError::SubjectNotFound, "subject not found"),
        (TefError::LanguageNotFound, "language not found"),
        (TefError::ElementdEntreeNotFound, "element entree not found"),
        (TefError::StarGestionNotFound, "star getsion not found"),
        (TefError::StepGestionNotFound, "step getsion not found"),
        (TefError::IdentifierNotFound, "identifier not found"),
    ];
    for (i, (error, words)) in all.iter().enumerate() {
        assert_eq!(error.message(), *words);
        assert_eq!(error.to_string(), *words);
        for (j, (other, _)) in all.iter().enumerate() {
            assert_eq!(error == other, i == j);
        }
    }
}

#[test]
fn policies_of_the_fields() {
    assert!(!Title::default().qualifies());
    assert!(Title { lang: String::from("fr"), type_: None, text: String::from("t") }.qualifies());
    assert!(!Title { lang: String::new(), type_: Some(String::from("k")), text: String::from("t") }.qualifies());
    assert!(!DateAccepted { type_: String::from("k"), text: String::new() }.qualifies());
    assert!(DateAccepted { type_: String::new(), text: String::from("2020") }.qualifies());
    assert!(Subject { lang: None, type_: None, text: String::from("s") }.qualifies());
    assert!(!Subject { lang: Some(String::from("fr")), type_: None, text: String::new() }.qualifies());
    assert!(!Identifier::default().qualifies());
    assert!(Identifier { type_: String::from("k"), text: String::new() }.qualifies());
    assert!(!ThesisAdmin::default().qualifies());
    assert!(!DmdSec::default().qualifies());
    assert!(DmdSec { id: String::from("d"), ..DmdSec::default() }.qualifies());
}

#[test]
fn payloads_by_kind() {
    let section = MetsValues::DmdSec(DmdSec { id: String::from("d"), ..DmdSec::default() });
    let as_dmd: Option<&DmdSec> = section.payload_ref();
    assert_eq!(as_dmd.unwrap().id, "d");
    let as_amd: Option<&AmdSec> = section.payload_ref();
    assert_eq!(as_amd, None);
    let wrapped = XmlDataValues::ThesisRecord(ThesisRecord::default());
    let record: Option<&ThesisRecord> = wrapped.payload_ref();
    assert!(record.is_some());
    let admin: Option<&ThesisAdmin> = wrapped.payload_ref();
    assert!(admin.is_none());
    let star: Option<&StarGestion> = XmlDataValues::Other.payload_ref();
    assert!(star.is_none());
}

#[test]
fn collect_appends_in_order() {
    let admin = ThesisAdmin {
        identifier: vec![
            Identifier { type_: String::from("a"), text: String::from("1") },
            Identifier::default(),
            Identifier { type_: String::from("b"), text: String::from("2") },
        ],
        ..ThesisAdmin::default()
    };
    let kept_before = Identifier { type_: String::from("z"), text: String::from("0") };
    let mut out: Vec<&Identifier> = vec![&kept_before];
    Identifier::collect(&admin, &mut out);
    let texts: Vec<&str> = out.iter().map(|i| i.text.as_str()).collect();
    assert_eq!(texts, vec!["0", "1", "2"]);
}
