use tef::dc::{Language, Title};
use tef::dcterms::Alternative;
use tef::extractors::algebra::{
    at_most_one, exactly_one, offer, offer_all, offer_optional, offer_optional_all,
    offer_payloads, one_or_more, selected, surviving, zero_or_more,
};
use tef::extractors::fields::offer_wrapped;
use tef::extractors::TefError;
use tef::mets::{AmdSec, AmdSecValues, DmdSec, MdWrap, Mets, MetsValues, TechMD, XmlData, XmlDataValues};
use tef::tef::{Nom, PresidentJury, ThesisAdmin, ThesisRecord};

fn language(text: &str) -> Language {
    Language { type_: String::new(), text: String::from(text) }
}

#[test]
fn exactly_one_takes_the_first() {
    let a = language("a");
    let b = language("b");
    let none: Vec<&Language> = vec![];
    assert_eq!(exactly_one(&none, TefError::LanguageNotFound), Err(TefError::LanguageNotFound));
    assert_eq!(exactly_one(&none, TefError::TitleNotFound), Err(TefError::TitleNotFound));
    assert_eq!(exactly_one(&vec![&a], TefError::LanguageNotFound), Ok(&a));
    assert_eq!(exactly_one(&vec![&b, &a, &b], TefError::LanguageNotFound), Ok(&b));
}

#[test]
fn one_or_more_takes_all() {
    let a = language("a");
    let b = language("b");
    assert_eq!(one_or_more::<Language>(vec![], TefError::LanguageNotFound), Err(TefError::LanguageNotFound));
    assert_eq!(one_or_more(vec![&a], TefError::LanguageNotFound), Ok(vec![&a]));
    assert_eq!(one_or_more(vec![&b, &a, &a], TefError::LanguageNotFound), Ok(vec![&b, &a, &a]));
}

#[test]
fn at_most_one_takes_the_first() {
    let a = language("a");
    let b = language("b");
    let none: Vec<&Language> = vec![];
    assert_eq!(at_most_one(&none), None);
    assert_eq!(at_most_one(&vec![&b, &a]), Some(&b));
}

#[test]
fn zero_or_more_reports_nothing_as_absent() {
    let a = language("a");
    let b = language("b");
    assert_eq!(zero_or_more::<Language>(vec![]), None);
    assert_eq!(zero_or_more(vec![&a, &b]), Some(vec![&a, &b]));
}

#[test]
fn offer_appends_what_counts() {
    let a = language("a");
    let zero = Language::default();
    let mut out: Vec<&Language> = vec![];
    offer(&zero, &mut out);
    assert!(out.is_empty());
    offer(&a, &mut out);
    offer(&zero, &mut out);
    offer(&a, &mut out);
    assert_eq!(out, vec![&a, &a]);
}

#[test]
fn offer_all_appends_in_order() {
    let items = vec![language("a"), Language::default(), language("b"), language("c")];
    let first = language("z");
    let mut out: Vec<&Language> = vec![&first];
    offer_all(&items, &mut out);
    let texts: Vec<&str> = out.iter().map(|l| l.text.as_str()).collect();
    assert_eq!(texts, vec!["z", "a", "b", "c"]);
    let nothing: Vec<Language> = vec![];
    offer_all(&nothing, &mut out);
    assert_eq!(out.len(), 4);
}

#[test]
fn offer_optional_appends_one_or_none() {
    let named = Some(PresidentJury { nom: Nom(String::from("P")), ..PresidentJury::default() });
    let unnamed = Some(PresidentJury::default());
    let absent: Option<PresidentJury> = None;
    let mut out: Vec<&PresidentJury> = vec![];
    offer_optional(&absent, &mut out);
    offer_optional(&unnamed, &mut out);
    assert!(out.is_empty());
    offer_optional(&named, &mut out);
    assert_eq!(out.len(), 1);
    assert_eq!(out[0].nom.0, "P");
}

#[test]
fn offer_optional_all_appends_what_is_listed() {
    let listed = Some(vec![
        Alternative { lang: String::from("en"), text: String::from("one") },
        Alternative::default(),
        Alternative { lang: String::from("en"), text: String::from("two") },
    ]);
    let unlisted: Option<Vec<Alternative>> = None;
    let mut out: Vec<&Alternative> = vec![];
    offer_optional_all(&unlisted, &mut out);
    assert!(out.is_empty());
    offer_optional_all(&listed, &mut out);
    let texts: Vec<&str> = out.iter().map(|a| a.text.as_str()).collect();
    assert_eq!(texts, vec!["one", "two"]);
}

fn section(id: &str) -> MetsValues {
    MetsValues::DmdSec(DmdSec { id: String::from(id), ..DmdSec::default() })
}

#[test]
fn offer_payloads_passes_over_other_kinds() {
    let children = vec![
        section("d1"),
        MetsValues::AmdSec(AmdSec { values: vec![AmdSecValues::TechMD(TechMD::default())] }),
        MetsValues::DmdSec(DmdSec::default()),
        section("d2"),
    ];
    let mut dmd: Vec<&DmdSec> = vec![];
    offer_payloads(&children, &mut dmd);
    let ids: Vec<&str> = dmd.iter().map(|d| d.id.as_str()).collect();
    assert_eq!(ids, vec!["d1", "d2"]);
    let mut amd: Vec<&AmdSec> = vec![];
    offer_payloads(&children, &mut amd);
    assert_eq!(amd.len(), 1);
}

#[test]
fn offer_wrapped_unwraps_the_kind_asked_for() {
    let record = ThesisRecord {
        title: Title { lang: String::from("fr"), type_: None, text: String::from("t") },
        ..ThesisRecord::default()
    };
    let wrapper = XmlDataValues::ThesisRecord(record);
    let mut records: Vec<&ThesisRecord> = vec![];
    offer_wrapped(&wrapper, &mut records);
    assert_eq!(records.len(), 1);
    let mut admins: Vec<&ThesisAdmin> = vec![];
    offer_wrapped(&wrapper, &mut admins);
    assert!(admins.is_empty());
    let placeholder = XmlDataValues::ThesisRecord(ThesisRecord::default());
    offer_wrapped(&placeholder, &mut records);
    assert_eq!(records.len(), 1);
    offer_wrapped(&XmlDataValues::Other, &mut records);
    assert_eq!(records.len(), 1);
}

#[test]
fn selected_and_surviving_compose() {
    let with_record = |id: &str, lang: &str| {
        MetsValues::DmdSec(DmdSec {
            id: String::from(id),
            created: None,
            value: MdWrap {
                value: XmlData {
                    value: XmlDataValues::ThesisRecord(ThesisRecord {
                        language: vec![language(lang), Language::default()],
                        ..ThesisRecord::default()
                    }),
                },
            },
        })
    };
    let doc = Mets {
        objid: None,
        profile: None,
        values: vec![with_record("d1", "fr"), section("d2"), with_record("d3", "en")],
    };
    let sections: Vec<&DmdSec> = selected(&doc);
    assert_eq!(sections.len(), 3);
    let records: Vec<&ThesisRecord> = surviving(&sections);
    assert_eq!(records.len(), 2);
    let languages: Vec<&Language> = surviving(&records);
    let texts: Vec<&str> = languages.iter().map(|l| l.text.as_str()).collect();
    assert_eq!(texts, vec!["fr", "en"]);
    let nothing: Vec<&ThesisRecord> = vec![];
    let none: Vec<&Language> = surviving(&nothing);
    assert!(none.is_empty());
}
