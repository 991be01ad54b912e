//! Workflow extension of the deposit system for defended theses.

use crate::tolerant::Tolerant;
use vstd::prelude::*;

verus! {

/// `star_gestion`: workflow record that the deposit system keeps for a defended thesis.
#[derive(Debug, Clone, PartialEq)]
pub struct StarGestion {
    /// Attribute `codeEtab`.
    pub code_etab: String,
    /// Attribute `libEtab`.
    pub lib_etab: String,
    /// Attribute `ppnEtab`.
    pub ppn_etab: String,
    /// Attribute `enProd`.
    pub en_prod: String,
    /// Attribute `ID_THESE`.
    pub id_these: String,
    /// Attribute `scenarioEtab`.
    pub scenario_etab: String,
    /// Attribute `etat`.
    pub etat: String,
    /// Child element `traitements`.
    pub traitements: Traitements,
    /// Child element `workflow`.
    pub workflow: Workflow,
}

impl StarGestion {
    pub fn code_etab(&self) -> (r: &String)
        ensures
            *r == self.code_etab,
    {
        &self.code_etab
    }

    pub fn lib_etab(&self) -> (r: &String)
        ensures
            *r == self.lib_etab,
    {
        &self.lib_etab
    }

    pub fn ppn_etab(&self) -> (r: &String)
        ensures
            *r == self.ppn_etab,
    {
        &self.ppn_etab
    }

    pub fn en_prod(&self) -> (r: &String)
        ensures
            *r == self.en_prod,
    {
        &self.en_prod
    }

    pub fn id_these(&self) -> (r: &String)
        ensures
            *r == self.id_these,
    {
        &self.id_these
    }

    pub fn scenario_etab(&self) -> (r: &String)
        ensures
            *r == self.scenario_etab,
    {
        &self.scenario_etab
    }

    pub fn etat(&self) -> (r: &String)
        ensures
            *r == self.etat,
    {
        &self.etat
    }

    pub fn traitements(&self) -> (r: &Traitements)
        ensures
            *r == self.traitements,
    {
        &self.traitements
    }

    pub fn workflow(&self) -> (r: &Workflow)
        ensures
            *r == self.workflow,
    {
        &self.workflow
    }
}

impl Default for StarGestion {
    fn default() -> (r: Self)
        ensures
            r.is_zero(),
    {
        StarGestion {
            code_etab: String::new(),
            lib_etab: String::new(),
            ppn_etab: String::new(),
            en_prod: String::new(),
            id_these: String::new(),
            scenario_etab: String::new(),
            etat: String::new(),
            traitements: Traitements::default(),
            workflow: Workflow::default(),
        }
    }
}

impl Tolerant for StarGestion {
    open spec fn is_zero(&self) -> bool {
        &&& self.code_etab@.len() == 0
        &&& self.lib_etab@.len() == 0
        &&& self.ppn_etab@.len() == 0
        &&& self.en_prod@.len() == 0
        &&& self.id_these@.len() == 0
        &&& self.scenario_etab@.len() == 0
        &&& self.etat@.len() == 0
        &&& self.traitements.is_zero()
        &&& self.workflow.is_zero()
    }

    fn is_default(&self) -> (b: bool) {
        self.code_etab.as_str().is_empty()
            && self.lib_etab.as_str().is_empty()
            && self.ppn_etab.as_str().is_empty()
            && self.en_prod.as_str().is_empty()
            && self.id_these.as_str().is_empty()
            && self.scenario_etab.as_str().is_empty()
            && self.etat.as_str().is_empty()
            && self.traitements.is_default()
            && self.workflow.is_default()
    }
}

/// `traitements`: processing steps applied to the deposit.
#[derive(Debug, Clone, PartialEq)]
pub struct Traitements {
    /// Attribute `scenario`.
    pub scenario: String,
    /// Child element `entree`.
    pub entree: Entree,
    /// Child elements `step`.
    pub step: Vec<Step>,
    /// Child element `maj`.
    pub maj: Maj,
    /// Child element `facile`.
    pub facile: Facile,
    /// Child element `ctrUrl`.
    pub ctr_url: CtrlUrl,
    /// Child element `remonteeArchive`.
    pub remontee_archive: RemonteeArchive,
    /// Child element `purge`.
    pub purge: Purge,
    /// Child element `invalidation`.
    pub invalidation: Invalidation,
    /// Child element `sorties`.
    pub sorties: Sorties,
}

impl Traitements {
    pub fn scenario(&self) -> (r: &String)
        ensures
            *r == self.scenario,
    {
        &self.scenario
    }

    pub fn entree(&self) -> (r: &Entree)
        ensures
            *r == self.entree,
    {
        &self.entree
    }

    pub fn step(&self) -> (r: &Vec<Step>)
        ensures
            *r == self.step,
    {
        &self.step
    }

    pub fn maj(&self) -> (r: &Maj)
        ensures
            *r == self.maj,
    {
        &self.maj
    }

    pub fn facile(&self) -> (r: &Facile)
        ensures
            *r == self.facile,
    {
        &self.facile
    }

    pub fn ctr_url(&self) -> (r: &CtrlUrl)
        ensures
            *r == self.ctr_url,
    {
        &self.ctr_url
    }

    pub fn remontee_archive(&self) -> (r: &RemonteeArchive)
        ensures
            *r == self.remontee_archive,
    {
        &self.remontee_archive
    }

    pub fn purge(&self) -> (r: &Purge)
        ensures
            *r == self.purge,
    {
        &self.purge
    }

    pub fn invalidation(&self) -> (r: &Invalidation)
        ensures
            *r == self.invalidation,
    {
        &self.invalidation
    }

    pub fn sorties(&self) -> (r: &Sorties)
        ensures
            *r == self.sorties,
    {
        &self.sorties
    }
}

impl Default for Traitements {
    fn default() -> (r: Self)
        ensures
            r.is_zero(),
    {
        Traitements {
            scenario: String::new(),
            entree: Entree::default(),
            step: Vec::new(),
            maj: Maj::default(),
            facile: Facile::default(),
            ctr_url: CtrlUrl::default(),
            remontee_archive: RemonteeArchive::default(),
            purge: Purge::default(),
            invalidation: Invalidation::default(),
            sorties: Sorties::default(),
        }
    }
}

impl Tolerant for Traitements {
    open spec fn is_zero(&self) -> bool {
        &&& self.scenario@.len() == 0
        &&& self.entree.is_zero()
        &&& self.step@.len() == 0
        &&& self.maj.is_zero()
        &&& self.facile.is_zero()
        &&& self.ctr_url.is_zero()
        &&& self.remontee_archive.is_zero()
        &&& self.purge.is_zero()
        &&& self.invalidation.is_zero()
        &&& self.sorties.is_zero()
    }

    fn is_default(&self) -> (b: bool) {
        self.scenario.as_str().is_empty()
            && self.entree.is_default()
            && self.step.len() == 0
            && self.maj.is_default()
            && self.facile.is_default()
            && self.ctr_url.is_default()
            && self.remontee_archive.is_default()
            && self.purge.is_default()
            && self.invalidation.is_default()
            && self.sorties.is_default()
    }
}

/// `entree`: entry of the deposit into the system.
#[derive(Debug, Clone, PartialEq)]
pub struct Entree;

impl Default for Entree {
    fn default() -> (r: Self)
        ensures
            r.is_zero(),
    {
        Entree
    }
}

impl Tolerant for Entree {
    open spec fn is_zero(&self) -> bool {
        true
    }

    fn is_default(&self) -> (b: bool) {
        true
    }
}

/// `step`: link with the record of the thesis in preparation.
#[derive(Debug, Clone, PartialEq)]
pub struct Step;

impl Default for Step {
    fn default() -> (r: Self)
        ensures
            r.is_zero(),
    {
        Step
    }
}

impl Tolerant for Step {
    open spec fn is_zero(&self) -> bool {
        true
    }

    fn is_default(&self) -> (b: bool) {
        true
    }
}

/// `maj`: update of the deposit.
#[derive(Debug, Clone, PartialEq)]
pub struct Maj;

impl Default for Maj {
    fn default() -> (r: Self)
        ensures
            r.is_zero(),
    {
        Maj
    }
}

impl Tolerant for Maj {
    open spec fn is_zero(&self) -> bool {
        true
    }

    fn is_default(&self) -> (b: bool) {
        true
    }
}

/// `facile`: validation of the archival format.
#[derive(Debug, Clone, PartialEq)]
pub struct Facile;

impl Default for Facile {
    fn default() -> (r: Self)
        ensures
            r.is_zero(),
    {
        Facile
    }
}

impl Tolerant for Facile {
    open spec fn is_zero(&self) -> bool {
        true
    }

    fn is_default(&self) -> (b: bool) {
        true
    }
}

/// `remonteeArchive`: return from the archive.
#[derive(Debug, Clone, PartialEq)]
pub struct RemonteeArchive;

impl Default for RemonteeArchive {
    fn default() -> (r: Self)
        ensures
            r.is_zero(),
    {
        RemonteeArchive
    }
}

impl Tolerant for RemonteeArchive {
    open spec fn is_zero(&self) -> bool {
        true
    }

    fn is_default(&self) -> (b: bool) {
        true
    }
}

/// `invalidation`: invalidation of the deposit.
#[derive(Debug, Clone, PartialEq)]
pub struct Invalidation;

impl Default for Invalidation {
    fn default() -> (r: Self)
        ensures
            r.is_zero(),
    {
        Invalidation
    }
}

impl Tolerant for Invalidation {
    open spec fn is_zero(&self) -> bool {
        true
    }

    fn is_default(&self) -> (b: bool) {
        true
    }
}

/// `sorties`: where the deposit was sent.
#[derive(Debug, Clone, PartialEq)]
pub struct Sorties {
    /// Attribute `date`.
    pub date: String,
    /// Child element `cines`.
    pub cines: Cines,
    /// Child element `sudoc`.
    pub sudoc: Sudoc,
    /// Child element `diffusion`.
    pub diffusion: Diffusion,
}

impl Sorties {
    pub fn date(&self) -> (r: &String)
        ensures
            *r == self.date,
    {
        &self.date
    }

    pub fn cines(&self) -> (r: &Cines)
        ensures
            *r == self.cines,
    {
        &self.cines
    }

    pub fn sudoc(&self) -> (r: &Sudoc)
        ensures
            *r == self.sudoc,
    {
        &self.sudoc
    }

    pub fn diffusion(&self) -> (r: &Diffusion)
        ensures
            *r == self.diffusion,
    {
        &self.diffusion
    }
}

impl Default for Sorties {
    fn default() -> (r: Self)
        ensures
            r.is_zero(),
    {
        Sorties {
            date: String::new(),
            cines: Cines::default(),
            sudoc: Sudoc::default(),
            diffusion: Diffusion::default(),
        }
    }
}

impl Tolerant for Sorties {
    open spec fn is_zero(&self) -> bool {
        &&& self.date@.len() == 0
        &&& self.cines.is_zero()
        &&& self.sudoc.is_zero()
        &&& self.diffusion.is_zero()
    }

    fn is_default(&self) -> (b: bool) {
        self.date.as_str().is_empty()
            && self.cines.is_default()
            && self.sudoc.is_default()
            && self.diffusion.is_default()
    }
}

/// `cines`: hand-over to the archive.
#[derive(Debug, Clone, PartialEq)]
pub struct Cines {
    /// Attribute `numeroPAC`.
    pub numero_pac: String,
    /// Attribute `dateCines`.
    pub date_cines: String,
    /// Attribute `indicCines`.
    pub indic_cines: String,
    /// Attribute `trace`.
    pub trace: String,
}

impl Cines {
    pub fn numero_pac(&self) -> (r: &String)
        ensures
            *r == self.numero_pac,
    {
        &self.numero_pac
    }

    pub fn date_cines(&self) -> (r: &String)
        ensures
            *r == self.date_cines,
    {
        &self.date_cines
    }

    pub fn indic_cines(&self) -> (r: &String)
        ensures
            *r == self.indic_cines,
    {
        &self.indic_cines
    }

    pub fn trace(&self) -> (r: &String)
        ensures
            *r == self.trace,
    {
        &self.trace
    }
}

impl Default for Cines {
    fn default() -> (r: Self)
        ensures
            r.is_zero(),
    {
        Cines {
            numero_pac: String::new(),
            date_cines: String::new(),
            indic_cines: String::new(),
            trace: String::new(),
        }
    }
}

impl Tolerant for Cines {
    open spec fn is_zero(&self) -> bool {
        &&& self.numero_pac@.len() == 0
        &&& self.date_cines@.len() == 0
        &&& self.indic_cines@.len() == 0
        &&& self.trace@.len() == 0
    }

    fn is_default(&self) -> (b: bool) {
        self.numero_pac.as_str().is_empty()
            && self.date_cines.as_str().is_empty()
            && self.indic_cines.as_str().is_empty()
            && self.trace.as_str().is_empty()
    }
}

/// `sudoc`: hand-over to the union catalogue.
#[derive(Debug, Clone, PartialEq)]
pub struct Sudoc;

impl Default for Sudoc {
    fn default() -> (r: Self)
        ensures
            r.is_zero(),
    {
        Sudoc
    }
}

impl Tolerant for Sudoc {
    open spec fn is_zero(&self) -> bool {
        true
    }

    fn is_default(&self) -> (b: bool) {
        true
    }
}

/// `diffusion`: distribution of the thesis, and what restricts it.
#[derive(Debug, Clone, PartialEq)]
pub struct Diffusion {
    /// Attribute `urlPerenne`.
    pub url_perenne: String,
    /// Attribute `conformitePolDiffusion`.
    pub conformite_pol_diffusion: String,
    /// Attribute `typeDiffusion`.
    pub type_diffusion: String,
    /// Attribute `restrictionTemporelleType`.
    pub restriction_temporelle_type: String,
    /// Attribute `restrictionTemporelleFin`.
    pub restriction_temporelle_fin: String,
    /// Attribute `embargoFin`.
    pub embargo_fin: String,
    /// Attribute `confidentialiteFin`.
    pub confidentialite_fin: String,
}

impl Diffusion {
    pub fn url_perenne(&self) -> (r: &String)
        ensures
            *r == self.url_perenne,
    {
        &self.url_perenne
    }

    pub fn conformite_pol_diffusion(&self) -> (r: &String)
        ensures
            *r == self.conformite_pol_diffusion,
    {
        &self.conformite_pol_diffusion
    }

    pub fn type_diffusion(&self) -> (r: &String)
        ensures
            *r == self.type_diffusion,
    {
        &self.type_diffusion
    }

    pub fn restriction_temporelle_type(&self) -> (r: &String)
        ensures
            *r == self.restriction_temporelle_type,
    {
        &self.restriction_temporelle_type
    }

    pub fn restriction_temporelle_fin(&self) -> (r: &String)
        ensures
            *r == self.restriction_temporelle_fin,
    {
        &self.restriction_temporelle_fin
    }

    pub fn embargo_fin(&self) -> (r: &String)
        ensures
            *r == self.embargo_fin,
    {
        &self.embargo_fin
    }

    pub fn confidentialite_fin(&self) -> (r: &String)
        ensures
            *r == self.confidentialite_fin,
    {
        &self.confidentialite_fin
    }
}

impl Default for Diffusion {
    fn default() -> (r: Self)
        ensures
            r.is_zero(),
    {
        Diffusion {
            url_perenne: String::new(),
            conformite_pol_diffusion: String::new(),
            type_diffusion: String::new(),
            restriction_temporelle_type: String::new(),
            restriction_temporelle_fin: String::new(),
            embargo_fin: String::new(),
            confidentialite_fin: String::new(),
        }
    }
}

impl Tolerant for Diffusion {
    open spec fn is_zero(&self) -> bool {
        &&& self.url_perenne@.len() == 0
        &&& self.conformite_pol_diffusion@.len() == 0
        &&& self.type_diffusion@.len() == 0
        &&& self.restriction_temporelle_type@.len() == 0
        &&& self.restriction_temporelle_fin@.len() == 0
        &&& self.embargo_fin@.len() == 0
        &&& self.confidentialite_fin@.len() == 0
    }

    fn is_default(&self) -> (b: bool) {
        self.url_perenne.as_str().is_empty()
            && self.conformite_pol_diffusion.as_str().is_empty()
            && self.type_diffusion.as_str().is_empty()
            && self.restriction_temporelle_type.as_str().is_empty()
            && self.restriction_temporelle_fin.as_str().is_empty()
            && self.embargo_fin.as_str().is_empty()
            && self.confidentialite_fin.as_str().is_empty()
    }
}

/// `workflow`: state of the workflow.
#[derive(Debug, Clone, PartialEq)]
pub struct Workflow;

impl Default for Workflow {
    fn default() -> (r: Self)
        ensures
            r.is_zero(),
    {
        Workflow
    }
}

impl Tolerant for Workflow {
    open spec fn is_zero(&self) -> bool {
        true
    }

    fn is_default(&self) -> (b: bool) {
        true
    }
}

/// `ctrlUrl`: control of the addresses.
#[derive(Debug, Clone, PartialEq)]
pub struct CtrlUrl;

impl Default for CtrlUrl {
    fn default() -> (r: Self)
        ensures
            r.is_zero(),
    {
        CtrlUrl
    }
}

impl Tolerant for CtrlUrl {
    open spec fn is_zero(&self) -> bool {
        true
    }

    fn is_default(&self) -> (b: bool) {
        true
    }
}

/// `purge`: purge of the deposit.
#[derive(Debug, Clone, PartialEq)]
pub struct Purge;

impl Default for Purge {
    fn default() -> (r: Self)
        ensures
            r.is_zero(),
    {
        Purge
    }
}

impl Tolerant for Purge {
    open spec fn is_zero(&self) -> bool {
        true
    }

    fn is_default(&self) -> (b: bool) {
        true
    }
}

} // verus!
