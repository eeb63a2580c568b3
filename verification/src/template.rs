//! Report templates and the chemical-formula lookup their rendering uses.
//!
//! Rendering itself runs in the surrounding process; the template record and
//! the fixed component-key-to-HTML-formula table live here.

use vstd::prelude::*;

use crate::text::str_eq;

verus! {

pub const KEY_ID: &'static str = "_id";

pub const KEY_NAME: &'static str = "name";

pub const KEY_BODY: &'static str = "body";

/// One stored report template. A new template has no id yet.
#[derive(Clone, Debug)]
pub struct Template {
    pub id: Option<String>,
    pub name: String,
    pub body: String,
}

/// Something that can be rendered through a template.
pub trait Render {
    fn render(&self, template: &Template) -> Result<String, String>;
}

/// The HTML formula of each chemical component key, `Unknown` for any key
/// outside the fixed table.
pub open spec fn html_formula(key: Seq<char>) -> Seq<char> {
    if key == "H"@ {
        "H<sup>+</sup>"@
    } else if key == "Li"@ {
        "Li<sup>+</sup>"@
    } else if key == "B"@ {
        "B<sup>3+</sup>"@
    } else if key == "C"@ {
        "C<sup>4+</sup>"@
    } else if key == "N"@ {
        "N<sup>3-</sup>"@
    } else if key == "O"@ {
        "O<sup>2-</sup>"@
    } else if key == "F"@ {
        "F<sup>-</sup>"@
    } else if key == "Na"@ {
        "Na<sup>+</sup>"@
    } else if key == "Mg"@ {
        "Mg<sup>2+</sup>"@
    } else if key == "Al"@ {
        "Al<sup>3+</sup>"@
    } else if key == "Si"@ {
        "Si<sup>4-</sup>"@
    } else if key == "P"@ {
        "P<sup>3-</sup>"@
    } else if key == "S"@ {
        "S<sup>2-</sup>"@
    } else if key == "Cl"@ {
        "Cl<sup>-</sup>"@
    } else if key == "K"@ {
        "K<sup>+</sup>"@
    } else if key == "Ca"@ {
        "Ca<sup>2+</sup>"@
    } else if key == "Cr"@ {
        "Cr"@
    } else if key == "MnII"@ {
        "Mn<sup>2+</sup>"@
    } else if key == "FeII"@ {
        "Fe<sup>2+</sup>"@
    } else if key == "FeIII"@ {
        "Fe<sup>3+</sup>"@
    } else if key == "Cu"@ {
        "Cu"@
    } else if key == "CuII"@ {
        "Cu<sup>2+</sup>"@
    } else if key == "Zn"@ {
        "Zn"@
    } else if key == "ZnII"@ {
        "Zn<sup>2+</sup>"@
    } else if key == "As"@ {
        "As"@
    } else if key == "Br"@ {
        "Br<sup>-</sup>"@
    } else if key == "Sr"@ {
        "Sr<sup>2+</sup>"@
    } else if key == "Ag"@ {
        "Ag"@
    } else if key == "Cd"@ {
        "Cd"@
    } else if key == "I"@ {
        "I<sup>-</sup>"@
    } else if key == "Ba"@ {
        "Ba<sup>2+</sup>"@
    } else if key == "Hg"@ {
        "Hg"@
    } else if key == "Pb"@ {
        "Pb"@
    } else if key == "H2SiO3"@ {
        "H<sub>2</sub>SiO<sub>3</sub>"@
    } else if key == "H2S"@ {
        "H<sub>2</sub>S"@
    } else if key == "HBO2"@ {
        "HBO<sub>2</sub>"@
    } else if key == "HCO3"@ {
        "HCO<sub>3</sub><sup>-</sup>"@
    } else if key == "HNO2"@ {
        "HNO<sub>2</sub><sup>-</sup>"@
    } else if key == "HSiO3"@ {
        "HSiO<sub>3</sub><sup>-</sup>"@
    } else if key == "HPO4"@ {
        "HPO<sub>4</sub><sup>2-</sup>"@
    } else if key == "HS"@ {
        "HS<sup>-</sup>"@
    } else if key == "HSO4"@ {
        "HSO<sub>4</sub><sup>-</sup>"@
    } else if key == "HAsO2"@ {
        "HAsO<sub>2</sub>"@
    } else if key == "BO2"@ {
        "BO<sub>2</sub>"@
    } else if key == "CO2"@ {
        "CO<sub>2</sub>"@
    } else if key == "CO3"@ {
        "CO<sub>3</sub><sup>2-</sup>"@
    } else if key == "NH4"@ {
        "NH<sub>4</sub><sup>+</sup>"@
    } else if key == "NO3"@ {
        "NO<sub>3</sub><sup>-</sup>"@
    } else if key == "OH"@ {
        "OH<sup>-</sup>"@
    } else if key == "PO4"@ {
        "PO<sub>4</sub><sup>2-</sup>"@
    } else if key == "SO4"@ {
        "SO<sub>4</sub><sup>2-</sup>"@
    } else if key == "S2O3"@ {
        "S<sub>2</sub>O<sub>3</sub><sup>2-</sup>"@
    } else if key == "AsO2"@ {
        "AsO<sub>2</sub><sup>-</sup>"@
    } else {
        "Unknown"@
    }
}

/// Look up the HTML formula of one component key.
pub fn lookup_html_formula(key: &str) -> (r: &'static str)
    ensures
        r@ == html_formula(key@),
{
    if str_eq(key, "H") {
        "H<sup>+</sup>"
    } else if str_eq(key, "Li") {
        "Li<sup>+</sup>"
    } else if str_eq(key, "B") {
        "B<sup>3+</sup>"
    } else if str_eq(key, "C") {
        "C<sup>4+</sup>"
    } else if str_eq(key, "N") {
        "N<sup>3-</sup>"
    } else if str_eq(key, "O") {
        "O<sup>2-</sup>"
    } else if str_eq(key, "F") {
        "F<sup>-</sup>"
    } else if str_eq(key, "Na") {
        "Na<sup>+</sup>"
    } else if str_eq(key, "Mg") {
        "Mg<sup>2+</sup>"
    } else if str_eq(key, "Al") {
        "Al<sup>3+</sup>"
    } else if str_eq(key, "Si") {
        "Si<sup>4-</sup>"
    } else if str_eq(key, "P") {
        "P<sup>3-</sup>"
    } else if str_eq(key, "S") {
        "S<sup>2-</sup>"
    } else if str_eq(key, "Cl") {
        "Cl<sup>-</sup>"
    } else if str_eq(key, "K") {
        "K<sup>+</sup>"
    } else if str_eq(key, "Ca") {
        "Ca<sup>2+</sup>"
    } else if str_eq(key, "Cr") {
        "Cr"
    } else if str_eq(key, "MnII") {
        "Mn<sup>2+</sup>"
    } else if str_eq(key, "FeII") {
        "Fe<sup>2+</sup>"
    } else if str_eq(key, "FeIII") {
        "Fe<sup>3+</sup>"
    } else if str_eq(key, "Cu") {
        "Cu"
    } else if str_eq(key, "CuII") {
        "Cu<sup>2+</sup>"
    } else if str_eq(key, "Zn") {
        "Zn"
    } else if str_eq(key, "ZnII") {
        "Zn<sup>2+</sup>"
    } else if str_eq(key, "As") {
        "As"
    } else if str_eq(key, "Br") {
        "Br<sup>-</sup>"
    } else if str_eq(key, "Sr") {
        "Sr<sup>2+</sup>"
    } else if str_eq(key, "Ag") {
        "Ag"
    } else if str_eq(key, "Cd") {
        "Cd"
    } else if str_eq(key, "I") {
        "I<sup>-</sup>"
    } else if str_eq(key, "Ba") {
        "Ba<sup>2+</sup>"
    } else if str_eq(key, "Hg") {
        "Hg"
    } else if str_eq(key, "Pb") {
        "Pb"
    } else if str_eq(key, "H2SiO3") {
        "H<sub>2</sub>SiO<sub>3</sub>"
    } else if str_eq(key, "H2S") {
        "H<sub>2</sub>S"
    } else if str_eq(key, "HBO2") {
        "HBO<sub>2</sub>"
    } else if str_eq(key, "HCO3") {
        "HCO<sub>3</sub><sup>-</sup>"
    } else if str_eq(key, "HNO2") {
        "HNO<sub>2</sub><sup>-</sup>"
    } else if str_eq(key, "HSiO3") {
        "HSiO<sub>3</sub><sup>-</sup>"
    } else if str_eq(key, "HPO4") {
        "HPO<sub>4</sub><sup>2-</sup>"
    } else if str_eq(key, "HS") {
        "HS<sup>-</sup>"
    } else if str_eq(key, "HSO4") {
        "HSO<sub>4</sub><sup>-</sup>"
    } else if str_eq(key, "HAsO2") {
        "HAsO<sub>2</sub>"
    } else if str_eq(key, "BO2") {
        "BO<sub>2</sub>"
    } else if str_eq(key, "CO2") {
        "CO<sub>2</sub>"
    } else if str_eq(key, "CO3") {
        "CO<sub>3</sub><sup>2-</sup>"
    } else if str_eq(key, "NH4") {
        "NH<sub>4</sub><sup>+</sup>"
    } else if str_eq(key, "NO3") {
        "NO<sub>3</sub><sup>-</sup>"
    } else if str_eq(key, "OH") {
        "OH<sup>-</sup>"
    } else if str_eq(key, "PO4") {
        "PO<sub>4</sub><sup>2-</sup>"
    } else if str_eq(key, "SO4") {
        "SO<sub>4</sub><sup>2-</sup>"
    } else if str_eq(key, "S2O3") {
        "S<sub>2</sub>O<sub>3</sub><sup>2-</sup>"
    } else if str_eq(key, "AsO2") {
        "AsO<sub>2</sub><sup>-</sup>"
    } else {
        "Unknown"
    }
}

} // verus!
