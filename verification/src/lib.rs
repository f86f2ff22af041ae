pub mod age_sex;
pub mod engine;
pub mod fields;
pub mod hierarchy;
pub mod interactions;
pub mod laws;
pub mod registry;
pub mod scoring;
pub mod subsequence;
pub mod table;
pub mod text;
pub mod trusted;
pub mod utils;

use vstd::prelude::*;

use crate::table::Table;

verus! {

/// The public model payload of a scoring run.
///
/// Coefficients and the normalization factor are binary32 numbers. The
/// library never computes with them: it carries each as its IEEE-754 bit
/// pattern.
#[derive(Debug)]
pub struct PublicRAFInputs {
    /// Coefficient of each model-prefixed variable, as a bit pattern.
    pub hcc_coefficients: Table<u32>,
    /// For each superior HCC, the HCCs that it suppresses.
    pub hcc_hierarchies: Table<Vec<String>>,
    /// Description of each payment HCC.
    pub hcc_labels: Table<String>,
    /// For each diagnosis code, the HCCs that it maps to.
    pub dx_to_cc: Table<Vec<String>>,
    /// Normalization factor, as a bit pattern.
    pub norm_factor: u32,
}

/// The private data of one beneficiary.
#[derive(Debug)]
pub struct PrivateRAFInput {
    /// Diagnosis codes, in the order given.
    pub diagnosis_codes: Vec<String>,
    /// Age in years.
    pub age: i32,
    /// `"M"` for male; every other value counts as female.
    pub sex: String,
    /// Eligibility code. Carried along; scoring does not read it.
    pub eligibility_code: String,
    /// Original reason for entitlement: `"0"` aged, `"1"` disabled, `"2"`
    /// ESRD, `"3"` both.
    pub entitlement_reason_code: String,
    /// Medicaid status. Carried along; scoring does not read it.
    pub medicaid_status: bool,
    /// Long-term institutionalized: adds the tag `LTIMCAID`.
    pub long_term_institutionalized: bool,
}

/// An entry of the coefficient registry: the coefficient of a variable, as a
/// bit pattern, and whether a scoring pass has used it.
#[derive(Clone, Copy, Debug, PartialEq, Eq, Structural)]
pub struct RAFAttribute {
    pub coefficient: u32,
    pub is_true: bool,
}

impl DeepView for RAFAttribute {
    type V = RAFAttribute;

    open spec fn deep_view(&self) -> RAFAttribute {
        *self
    }
}

} // verus!
