//! Workflow extension of the registration system for theses in preparation.

use crate::tolerant::Tolerant;
use vstd::prelude::*;

verus! {

/// `step_gestion`: workflow record that the registration system keeps for a thesis in
/// preparation.
#[derive(Debug, Clone, PartialEq)]
pub struct StepGestion {
    /// Attribute `codeEtab`.
    pub code_etab: String,
    /// Attribute `libEtab`.
    pub lib_etab: String,
    /// Attribute `ppnEtab`.
    pub ppn_etab: String,
    /// Attribute `enProdStep`.
    pub en_prod_step: String,
    /// Attribute `ID_SUJET`.
    pub id_sujet: String,
    /// Attribute `stepEtat`.
    pub step_etat: String,
    /// Child element `traitements`.
    pub traitements: Traitements,
    /// Child element `workflow`.
    pub workflow: Workflow,
}

impl StepGestion {
    pub fn code_etab(&self) -> (r: &String)
        ensures
            *r == self.code_etab,
    {
        &self.code_etab
    }

    pub fn lib_etab(&self) -> (r: &String)
        ensures
            *r == self.lib_etab,
    {
        &self.lib_etab
    }

    pub fn ppn_etab(&self) -> (r: &String)
        ensures
            *r == self.ppn_etab,
    {
        &self.ppn_etab
    }

    pub fn en_prod_step(&self) -> (r: &String)
        ensures
            *r == self.en_prod_step,
    {
        &self.en_prod_step
    }

    pub fn id_sujet(&self) -> (r: &String)
        ensures
            *r == self.id_sujet,
    {
        &self.id_sujet
    }

    pub fn step_etat(&self) -> (r: &String)
        ensures
            *r == self.step_etat,
    {
        &self.step_etat
    }

    pub fn traitements(&self) -> (r: &Traitements)
        ensures
            *r == self.traitements,
    {
        &self.traitements
    }

    pub fn workflow(&self) -> (r: &Workflow)
        ensures
            *r == self.workflow,
    {
        &self.workflow
    }
}

impl Default for StepGestion {
    fn default() -> (r: Self)
        ensures
            r.is_zero(),
    {
        StepGestion {
            code_etab: String::new(),
            lib_etab: String::new(),
            ppn_etab: String::new(),
            en_prod_step: String::new(),
            id_sujet: String::new(),
            step_etat: String::new(),
            traitements: Traitements::default(),
            workflow: Workflow::default(),
        }
    }
}

impl Tolerant for StepGestion {
    open spec fn is_zero(&self) -> bool {
        &&& self.code_etab@.len() == 0
        &&& self.lib_etab@.len() == 0
        &&& self.ppn_etab@.len() == 0
        &&& self.en_prod_step@.len() == 0
        &&& self.id_sujet@.len() == 0
        &&& self.step_etat@.len() == 0
        &&& self.traitements.is_zero()
        &&& self.workflow.is_zero()
    }

    fn is_default(&self) -> (b: bool) {
        self.code_etab.as_str().is_empty()
            && self.lib_etab.as_str().is_empty()
            && self.ppn_etab.as_str().is_empty()
            && self.en_prod_step.as_str().is_empty()
            && self.id_sujet.as_str().is_empty()
            && self.step_etat.as_str().is_empty()
            && self.traitements.is_default()
            && self.workflow.is_default()
    }
}

/// `traitements`: processing steps applied to the registration.
#[derive(Debug, Clone, PartialEq)]
pub struct Traitements {
    /// Child element `entree`.
    pub entree: Entree,
    /// Child element `maj`.
    pub maj: Maj,
    /// Child element `sorties`.
    pub sorties: Sorties,
}

impl Traitements {
    pub fn entree(&self) -> (r: &Entree)
        ensures
            *r == self.entree,
    {
        &self.entree
    }

    pub fn maj(&self) -> (r: &Maj)
        ensures
            *r == self.maj,
    {
        &self.maj
    }

    pub fn sorties(&self) -> (r: &Sorties)
        ensures
            *r == self.sorties,
    {
        &self.sorties
    }
}

impl Default for Traitements {
    fn default() -> (r: Self)
        ensures
            r.is_zero(),
    {
        Traitements {
            entree: Entree::default(),
            maj: Maj::default(),
            sorties: Sorties::default(),
        }
    }
}

impl Tolerant for Traitements {
    open spec fn is_zero(&self) -> bool {
        &&& self.entree.is_zero()
        &&& self.maj.is_zero()
        &&& self.sorties.is_zero()
    }

    fn is_default(&self) -> (b: bool) {
        self.entree.is_default()
            && self.maj.is_default()
            && self.sorties.is_default()
    }
}

/// `maj`: update of the registration.
#[derive(Debug, Clone, PartialEq)]
pub struct Maj;

impl Default for Maj {
    fn default() -> (r: Self)
        ensures
            r.is_zero(),
    {
        Maj
    }
}

impl Tolerant for Maj {
    open spec fn is_zero(&self) -> bool {
        true
    }

    fn is_default(&self) -> (b: bool) {
        true
    }
}

/// `workflow`: state of the workflow.
#[derive(Debug, Clone, PartialEq)]
pub struct Workflow;

impl Default for Workflow {
    fn default() -> (r: Self)
        ensures
            r.is_zero(),
    {
        Workflow
    }
}

impl Tolerant for Workflow {
    open spec fn is_zero(&self) -> bool {
        true
    }

    fn is_default(&self) -> (b: bool) {
        true
    }
}

/// `entree`: entry of the registration into the system.
#[derive(Debug, Clone, PartialEq)]
pub struct Entree;

impl Default for Entree {
    fn default() -> (r: Self)
        ensures
            r.is_zero(),
    {
        Entree
    }
}

impl Tolerant for Entree {
    open spec fn is_zero(&self) -> bool {
        true
    }

    fn is_default(&self) -> (b: bool) {
        true
    }
}

/// `sorties`: where the registration was sent.
#[derive(Debug, Clone, PartialEq)]
pub struct Sorties {
    /// Child element `nnt`.
    pub nnt: Nnt,
    /// Child element `star`.
    pub star: Star,
    /// Child element `sudoc`.
    pub sudoc: Sudoc,
    /// Child element `diffusion`.
    pub diffusion: Diffusion,
}

impl Sorties {
    pub fn nnt(&self) -> (r: &Nnt)
        ensures
            *r == self.nnt,
    {
        &self.nnt
    }

    pub fn star(&self) -> (r: &Star)
        ensures
            *r == self.star,
    {
        &self.star
    }

    pub fn sudoc(&self) -> (r: &Sudoc)
        ensures
            *r == self.sudoc,
    {
        &self.sudoc
    }

    pub fn diffusion(&self) -> (r: &Diffusion)
        ensures
            *r == self.diffusion,
    {
        &self.diffusion
    }
}

impl Default for Sorties {
    fn default() -> (r: Self)
        ensures
            r.is_zero(),
    {
        Sorties {
            nnt: Nnt::default(),
            star: Star::default(),
            sudoc: Sudoc::default(),
            diffusion: Diffusion::default(),
        }
    }
}

impl Tolerant for Sorties {
    open spec fn is_zero(&self) -> bool {
        &&& self.nnt.is_zero()
        &&& self.star.is_zero()
        &&& self.sudoc.is_zero()
        &&& self.diffusion.is_zero()
    }

    fn is_default(&self) -> (b: bool) {
        self.nnt.is_default()
            && self.star.is_default()
            && self.sudoc.is_default()
            && self.diffusion.is_default()
    }
}

/// `diffusion`: distribution of the registration.
#[derive(Debug, Clone, PartialEq)]
pub struct Diffusion;

impl Default for Diffusion {
    fn default() -> (r: Self)
        ensures
            r.is_zero(),
    {
        Diffusion
    }
}

impl Tolerant for Diffusion {
    open spec fn is_zero(&self) -> bool {
        true
    }

    fn is_default(&self) -> (b: bool) {
        true
    }
}

/// `sudoc`: hand-over to the union catalogue.
#[derive(Debug, Clone, PartialEq)]
pub struct Sudoc;

impl Default for Sudoc {
    fn default() -> (r: Self)
        ensures
            r.is_zero(),
    {
        Sudoc
    }
}

impl Tolerant for Sudoc {
    open spec fn is_zero(&self) -> bool {
        true
    }

    fn is_default(&self) -> (b: bool) {
        true
    }
}

/// `nnt`: national thesis number.
#[derive(Debug, Clone, PartialEq)]
pub struct Nnt {
    /// Attribute `dateNnt`.
    pub date_nnt: Option<String>,
    /// Attribute `sourceNnt`.
    pub source_nnt: Option<String>,
    /// Attribute `indicNnt`.
    pub indic_nnt: Option<String>,
    /// Attribute `trace`.
    pub trace: Option<String>,
    /// Text content.
    pub text: String,
}

impl Nnt {
    pub fn date_nnt(&self) -> (r: &Option<String>)
        ensures
            *r == self.date_nnt,
    {
        &self.date_nnt
    }

    pub fn source_nnt(&self) -> (r: &Option<String>)
        ensures
            *r == self.source_nnt,
    {
        &self.source_nnt
    }

    pub fn indic_nnt(&self) -> (r: &Option<String>)
        ensures
            *r == self.indic_nnt,
    {
        &self.indic_nnt
    }

    pub fn trace(&self) -> (r: &Option<String>)
        ensures
            *r == self.trace,
    {
        &self.trace
    }

    pub fn text(&self) -> (r: &String)
        ensures
            *r == self.text,
    {
        &self.text
    }
}

impl Default for Nnt {
    fn default() -> (r: Self)
        ensures
            r.is_zero(),
    {
        Nnt {
            date_nnt: None,
            source_nnt: None,
            indic_nnt: None,
            trace: None,
            text: String::new(),
        }
    }
}

impl Tolerant for Nnt {
    open spec fn is_zero(&self) -> bool {
        &&& self.date_nnt is None
        &&& self.source_nnt is None
        &&& self.indic_nnt is None
        &&& self.trace is None
        &&& self.text@.len() == 0
    }

    fn is_default(&self) -> (b: bool) {
        self.date_nnt.is_none()
            && self.source_nnt.is_none()
            && self.indic_nnt.is_none()
            && self.trace.is_none()
            && self.text.as_str().is_empty()
    }
}

/// `star`: hand-over to the deposit system.
#[derive(Debug, Clone, PartialEq)]
pub struct Star;

impl Default for Star {
    fn default() -> (r: Self)
        ensures
            r.is_zero(),
    {
        Star
    }
}

impl Tolerant for Star {
    open spec fn is_zero(&self) -> bool {
        true
    }

    fn is_default(&self) -> (b: bool) {
        true
    }
}

} // verus!
