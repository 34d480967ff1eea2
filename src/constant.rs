//! One named physical constant and the checks a raw record must pass to become one.
//!
//! Numbers are carried as IEEE 754 binary64 bit patterns (`f64::to_bits`), so that
//! finiteness, sign and equality are decided on integers.
use vstd::prelude::*;

verus! {

/// The sign bit of a binary64 bit pattern.
pub const SIGN_BIT: u64 = 0x8000_0000_0000_0000;

/// The exponent field of a binary64 bit pattern.
pub const EXPONENT_MASK: u64 = 0x7ff0_0000_0000_0000;

/// The bits of a binary64 value other than the sign.
pub const MAGNITUDE_MASK: u64 = 0x7fff_ffff_ffff_ffff;

/// A binary64 value is finite (neither infinite nor NaN) when its exponent field is not all ones.
pub open spec fn is_finite_bits(b: u64) -> bool {
    b & EXPONENT_MASK != EXPONENT_MASK
}

/// A binary64 value is below zero when its sign bit is set and it is not a zero
/// (`-0.0` is not negative).
pub open spec fn is_negative_bits(b: u64) -> bool {
    b & SIGN_BIT != 0 && b & MAGNITUDE_MASK != 0
}

/// Two finite binary64 values compare equal: the same bits, or both zeros of either sign.
pub open spec fn same_number(a: u64, b: u64) -> bool {
    a == b || (a & MAGNITUDE_MASK == 0 && b & MAGNITUDE_MASK == 0)
}

pub fn finite_bits(b: u64) -> (r: bool)
    ensures
        r == is_finite_bits(b),
{
    b & EXPONENT_MASK != EXPONENT_MASK
}

pub fn negative_bits(b: u64) -> (r: bool)
    ensures
        r == is_negative_bits(b),
{
    b & SIGN_BIT != 0 && b & MAGNITUDE_MASK != 0
}

pub fn equal_numbers(a: u64, b: u64) -> (r: bool)
    ensures
        r == same_number(a, b),
{
    a == b || (a & MAGNITUDE_MASK == 0 && b & MAGNITUDE_MASK == 0)
}

/// Why a raw record cannot become a constant. The checks run in this order and
/// the first that fails is reported.
#[derive(Clone, Copy, Debug, PartialEq, Eq, Structural)]
pub enum InvalidConstant {
    /// The name is the empty string.
    EmptyName,
    /// The value is infinite or NaN.
    NonFiniteValue,
    /// The uncertainty is present and infinite or NaN.
    NonFiniteUncertainty,
    /// The uncertainty is present and below zero.
    NegativeUncertainty,
}

/// What a record or a constant holds, as mathematical values.
pub struct ConstantData {
    pub name: Seq<char>,
    pub value: u64,
    pub unit: Option<Seq<char>>,
    pub uncertainty: Option<u64>,
}

pub open spec fn opt_string_view(o: Option<String>) -> Option<Seq<char>> {
    match o {
        Some(s) => Some(s@),
        None => None,
    }
}

/// The first check that `d` fails, if any.
pub open spec fn validation_error(d: ConstantData) -> Option<InvalidConstant> {
    if d.name.len() == 0 {
        Some(InvalidConstant::EmptyName)
    } else if !is_finite_bits(d.value) {
        Some(InvalidConstant::NonFiniteValue)
    } else if d.uncertainty is Some && !is_finite_bits(d.uncertainty->Some_0) {
        Some(InvalidConstant::NonFiniteUncertainty)
    } else if d.uncertainty is Some && is_negative_bits(d.uncertainty->Some_0) {
        Some(InvalidConstant::NegativeUncertainty)
    } else {
        None
    }
}

pub open spec fn is_valid(d: ConstantData) -> bool {
    validation_error(d) is None
}

/// A unit that is absent or empty means the quantity is dimensionless.
pub open spec fn is_dimensionless(unit: Option<Seq<char>>) -> bool {
    unit is None || unit->Some_0.len() == 0
}

/// Two units are the same when both are dimensionless or both are the same text.
pub open spec fn same_unit(a: Option<Seq<char>>, b: Option<Seq<char>>) -> bool {
    (is_dimensionless(a) && is_dimensionless(b)) || (a is Some && b is Some && a == b)
}

pub open spec fn same_uncertainty(a: Option<u64>, b: Option<u64>) -> bool {
    (a is None && b is None) || (a is Some && b is Some && same_number(
        a->Some_0,
        b->Some_0,
    ))
}

/// Structural equality of two constants' data, names aside: equal value, unit
/// and uncertainty.
pub open spec fn same_data(a: ConstantData, b: ConstantData) -> bool {
    same_number(a.value, b.value) && same_unit(a.unit, b.unit) && same_uncertainty(
        a.uncertainty,
        b.uncertainty,
    )
}

/// A raw dataset record, not yet checked. Numbers are binary64 bit patterns.
#[derive(Clone, Debug)]
pub struct Record {
    pub name: String,
    pub value_bits: u64,
    pub si_base_units: Option<String>,
    pub uncertainty_bits: Option<u64>,
}

impl View for Record {
    type V = ConstantData;

    open spec fn view(&self) -> ConstantData {
        ConstantData {
            name: self.name@,
            value: self.value_bits,
            unit: opt_string_view(self.si_base_units),
            uncertainty: self.uncertainty_bits,
        }
    }
}

impl Record {
    pub fn new(
        name: String,
        value_bits: u64,
        si_base_units: Option<String>,
        uncertainty_bits: Option<u64>,
    ) -> (r: Record)
        ensures
            r@ == (ConstantData {
                name: name@,
                value: value_bits,
                unit: opt_string_view(si_base_units),
                uncertainty: uncertainty_bits,
            }),
    {
        Record { name, value_bits, si_base_units, uncertainty_bits }
    }
}

/// One named physical constant: a non-empty name, a finite value, an optional
/// unit (absent or empty: dimensionless) and an optional finite, non-negative
/// uncertainty (absent: exact by definition). It never changes once built.
#[derive(Clone, Debug)]
pub struct Constant {
    name: String,
    value_bits: u64,
    si_base_units: Option<String>,
    uncertainty_bits: Option<u64>,
}

impl View for Constant {
    type V = ConstantData;

    closed spec fn view(&self) -> ConstantData {
        ConstantData {
            name: self.name@,
            value: self.value_bits,
            unit: opt_string_view(self.si_base_units),
            uncertainty: self.uncertainty_bits,
        }
    }
}

fn clone_unit(u: &Option<String>) -> (r: Option<String>)
    ensures
        opt_string_view(r) == opt_string_view(*u),
{
    match u {
        Some(s) => Some(s.clone()),
        None => None,
    }
}

/// The first check that the record fails, if any.
pub fn check_record(r: &Record) -> (e: Option<InvalidConstant>)
    ensures
        e == validation_error(r@),
{
    if r.name.as_str().is_empty() {
        Some(InvalidConstant::EmptyName)
    } else if !finite_bits(r.value_bits) {
        Some(InvalidConstant::NonFiniteValue)
    } else {
        match r.uncertainty_bits {
            Some(u) => {
                if !finite_bits(u) {
                    Some(InvalidConstant::NonFiniteUncertainty)
                } else if negative_bits(u) {
                    Some(InvalidConstant::NegativeUncertainty)
                } else {
                    None
                }
            },
            None => None,
        }
    }
}

impl Constant {
    pub closed spec fn wf(&self) -> bool {
        is_valid(self@)
    }

    /// Builds a constant from a record, or reports the first check it fails.
    pub fn new(r: &Record) -> (res: Result<Constant, InvalidConstant>)
        ensures
            res matches Ok(c) ==> c@ == r@ && c.wf(),
            res matches Err(e) ==> validation_error(r@) == Some(e),
            res is Ok <==> is_valid(r@),
    {
        match check_record(r) {
            Some(e) => Err(e),
            None => Ok(
                Constant {
                    name: r.name.clone(),
                    value_bits: r.value_bits,
                    si_base_units: clone_unit(&r.si_base_units),
                    uncertainty_bits: r.uncertainty_bits,
                },
            ),
        }
    }

    pub fn name(&self) -> (r: &str)
        ensures
            r@ == self@.name,
    {
        self.name.as_str()
    }

    pub fn value_bits(&self) -> (r: u64)
        ensures
            r == self@.value,
    {
        self.value_bits
    }

    pub fn si_base_units(&self) -> (r: Option<&str>)
        ensures
            r is Some <==> self@.unit is Some,
            r matches Some(u) ==> self@.unit == Some(u@),
    {
        match &self.si_base_units {
            Some(u) => Some(u.as_str()),
            None => None,
        }
    }

    pub fn uncertainty_bits(&self) -> (r: Option<u64>)
        ensures
            r == self@.uncertainty,
    {
        self.uncertainty_bits
    }

    /// True when the constant has no unit, or an empty one.
    pub fn is_dimensionless(&self) -> (r: bool)
        ensures
            r == is_dimensionless(self@.unit),
    {
        match &self.si_base_units {
            Some(u) => u.as_str().is_empty(),
            None => true,
        }
    }

    /// Structural equality, names aside: equal value, unit and uncertainty.
    pub fn same_data_as(&self, o: &Constant) -> (r: bool)
        ensures
            r == same_data(self@, o@),
    {
        let v = equal_numbers(self.value_bits, o.value_bits);
        let u = if self.is_dimensionless() && o.is_dimensionless() {
            true
        } else {
            match (&self.si_base_units, &o.si_base_units) {
                (Some(x), Some(y)) => *x == *y,
                _ => false,
            }
        };
        let w = match (self.uncertainty_bits, o.uncertainty_bits) {
            (None, None) => true,
            (Some(x), Some(y)) => equal_numbers(x, y),
            _ => false,
        };
        v && u && w
    }

    /// True when the constant is exact by definition (no uncertainty).
    pub fn is_exact(&self) -> (r: bool)
        ensures
            r == (self@.uncertainty is None),
    {
        self.uncertainty_bits.is_none()
    }
}

} // verus!
