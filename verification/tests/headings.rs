use tef::extractors::{element_entree, subdivisions, TefError};
use tef::tef::{
    ElementdEntree, Subdivision, SujetRameauValues, VedetteRameauAuteurTitre,
    VedetteRameauCollectivite, VedetteRameauFamille, VedetteRameauGenreForme,
    VedetteRameauNomCommun, VedetteRameauNomGeographique, VedetteRameauPersonne,
    VedetteRameauTitre,
};

fn term(text: &str) -> ElementdEntree {
    ElementdEntree { autorite_externe: None, autorite_source: None, text: String::from(text) }
}

fn qualifier(kind: &str, text: &str) -> Subdivision {
    Subdivision {
        autorite_source: None,
        autorite_externe: None,
        type_: String::from(kind),
        text: String::from(text),
    }
}

fn every_kind(entry: &ElementdEntree, list: &Option<Vec<Subdivision>>) -> Vec<SujetRameauValues> {
    vec![
        SujetRameauValues::VedetteRameauPersonne(VedetteRameauPersonne {
            element_entree: entry.clone(),
            subdivision: list.clone(),
        }),
        SujetRameauValues::VedetteRameauCollectivite(VedetteRameauCollectivite {
            element_entree: entry.clone(),
            subdivision: list.clone(),
        }),
        SujetRameauValues::VedetteRameauFamille(VedetteRameauFamille {
            element_entree: entry.clone(),
            subdivision: list.clone(),
        }),
        SujetRameauValues::VedetteRameauAuteurTitre(VedetteRameauAuteurTitre {
            element_entree: entry.clone(),
            subdivision: list.clone(),
        }),
        SujetRameauValues::VedetteRameauTitre(VedetteRameauTitre {
            element_entree: entry.clone(),
            subdivision: list.clone(),
        }),
        SujetRameauValues::VedetteRameauNomCommun(VedetteRameauNomCommun {
            element_entree: entry.clone(),
            subdivision: list.clone(),
        }),
        SujetRameauValues::VedetteRameauNomGeographique(VedetteRameauNomGeographique {
            element_entree: entry.clone(),
            subdivision: list.clone(),
        }),
        SujetRameauValues::VedetteRameauGenreForme(VedetteRameauGenreForme {
            element_entree: entry.clone(),
            subdivision: list.clone(),
        }),
    ]
}

#[test]
fn every_kind_of_heading_has_its_entry_term() {
    let entry = term("Physique");
    let all = every_kind(&entry, &None);
    assert_eq!(all.len(), 8);
    for heading in &all {
        let found = element_entree(heading).unwrap();
        assert_eq!(found, entry);
        assert_ne!(found, ElementdEntree::default());
        let (common, listed) = heading.heading_ref();
        assert_eq!(common, &entry);
        assert_eq!(listed, &None);
    }
}

#[test]
fn entry_term_that_is_the_zero_value_is_missing() {
    for heading in &every_kind(&ElementdEntree::default(), &Some(vec![qualifier("x", "y")])) {
        assert_eq!(element_entree(heading), Err(TefError::ElementdEntreeNotFound));
    }
}

#[test]
fn entry_term_with_an_authority_alone_counts() {
    let entry = ElementdEntree {
        autorite_externe: Some(String::from("027253139")),
        autorite_source: None,
        text: String::new(),
    };
    for heading in &every_kind(&entry, &None) {
        assert_eq!(element_entree(heading), Ok(entry.clone()));
    }
}

#[test]
fn qualifiers_keep_their_order_and_lose_zero_values() {
    let list = Some(vec![
        qualifier("subdivisionDeSujet", "Histoire"),
        Subdivision::default(),
        qualifier("subdivisionGeographique", "France"),
        Subdivision::default(),
        qualifier("", "sans type"),
        qualifier("subdivisionChronologique", ""),
    ]);
    for heading in &every_kind(&term("Physique"), &list) {
        let found = subdivisions(heading).unwrap();
        assert_eq!(
            found,
            vec![
                qualifier("subdivisionDeSujet", "Histoire"),
                qualifier("subdivisionGeographique", "France"),
                qualifier("", "sans type"),
                qualifier("subdivisionChronologique", ""),
            ]
        );
    }
}

#[test]
fn qualifiers_absent_when_none_is_listed_or_none_counts() {
    for heading in &every_kind(&term("Physique"), &None) {
        assert_eq!(subdivisions(heading), None);
    }
    for heading in &every_kind(&term("Physique"), &Some(vec![])) {
        assert_eq!(subdivisions(heading), None);
    }
    let zeros = Some(vec![Subdivision::default(), Subdivision::default()]);
    for heading in &every_kind(&term("Physique"), &zeros) {
        assert_eq!(subdivisions(heading), None);
    }
}

#[test]
fn qualifier_with_an_authority_alone_counts() {
    let q = Subdivision {
        autorite_source: Some(String::from("Sudoc")),
        autorite_externe: None,
        type_: String::new(),
        text: String::new(),
    };
    let heading = SujetRameauValues::VedetteRameauTitre(VedetteRameauTitre {
        element_entree: ElementdEntree::default(),
        subdivision: Some(vec![Subdivision::default(), q.clone()]),
    });
    assert_eq!(subdivisions(&heading), Some(vec![q]));
}

#[test]
fn cloned_term_and_qualifier_are_equal_to_what_they_were_cloned_from() {
    let entry = ElementdEntree {
        autorite_externe: Some(String::from("e")),
        autorite_source: Some(String::from("s")),
        text: String::from("t"),
    };
    assert_eq!(entry.clone(), entry);
    let q = Subdivision {
        autorite_source: Some(String::from("s")),
        autorite_externe: Some(String::from("e")),
        type_: String::from("k"),
        text: String::from("t"),
    };
    assert_eq!(q.clone(), q);
}
