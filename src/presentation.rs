//! The plain-text block that presents one constant.
//!
//! The block has four labelled lines, in this order: name, value, unit
//! (`Dimensionless` when absent or empty) and uncertainty (`Exact` when absent).
//! The decimal texts of the two numbers are supplied by the caller, who renders
//! the binary64 values; this module fixes everything around them.
use crate::constant::{is_dimensionless, Constant, ConstantData};
use vstd::prelude::*;
use vstd::string::StringExecFns;

verus! {

/// The text shown for a unit.
pub open spec fn unit_text(unit: Option<Seq<char>>) -> Seq<char> {
    if is_dimensionless(unit) {
        "Dimensionless"@
    } else {
        unit->Some_0
    }
}

/// The text shown for an uncertainty, given the decimal text of its value.
pub open spec fn uncertainty_text(uncertainty: Option<u64>, text: Seq<char>) -> Seq<char> {
    if uncertainty is None {
        "Exact"@
    } else {
        text
    }
}

pub open spec fn name_line(c: ConstantData) -> Seq<char> {
    "Constant: "@ + c.name + "\n"@
}

pub open spec fn value_line(value_text: Seq<char>) -> Seq<char> {
    "Value: "@ + value_text + "\n"@
}

pub open spec fn unit_line(c: ConstantData) -> Seq<char> {
    "SI base units: "@ + unit_text(c.unit) + "\n"@
}

pub open spec fn uncertainty_line(c: ConstantData, text: Seq<char>) -> Seq<char> {
    "Uncertainty: "@ + uncertainty_text(c.uncertainty, text) + "\n"@
}

/// The block for constant `c`, with `value_text` and `uncertainty_text` the
/// decimal renderings of its value and uncertainty.
pub open spec fn rendering(c: ConstantData, value_text: Seq<char>, uncertainty_text: Seq<char>) -> Seq<char> {
    name_line(c) + value_line(value_text) + unit_line(c) + uncertainty_line(c, uncertainty_text)
}

/// Renders `c` as its four-line block. `value_text` is the decimal text of the
/// value; `uncertainty_text` that of the uncertainty, and it is not used when
/// the constant is exact.
pub fn format(c: &Constant, value_text: &str, uncertainty_text: &str) -> (r: String)
    ensures
        r@ == rendering(c@, value_text@, uncertainty_text@),
{
    let mut out = String::from_str("Constant: ");
    out.append(c.name());
    out.append("\n");
    out.append("Value: ");
    out.append(value_text);
    out.append("\n");
    out.append("SI base units: ");
    if c.is_dimensionless() {
        out.append("Dimensionless");
    } else {
        match c.si_base_units() {
            Some(u) => out.append(u),
            None => out.append("Dimensionless"),
        }
    }
    out.append("\n");
    out.append("Uncertainty: ");
    if c.is_exact() {
        out.append("Exact");
    } else {
        out.append(uncertainty_text);
    }
    out.append("\n");
    proof {
        reveal_strlit("Constant: ");
        reveal_strlit("\n");
        reveal_strlit("Value: ");
        reveal_strlit("SI base units: ");
        reveal_strlit("Dimensionless");
        reveal_strlit("Uncertainty: ");
        reveal_strlit("Exact");
        assert(out@ =~= rendering(c@, value_text@, uncertainty_text@));
    }
    out
}

} // verus!
