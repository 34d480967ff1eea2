use physical_constants::constant::{
    equal_numbers, finite_bits, negative_bits, Constant, InvalidConstant, Record,
};

fn rec(name: &str, value: f64, unit: Option<&str>, uncertainty: Option<f64>) -> Record {
    Record::new(
        name.to_string(),
        value.to_bits(),
        unit.map(|u| u.to_string()),
        uncertainty.map(|u| u.to_bits()),
    )
}

#[test]
fn valid_record_becomes_constant() {
    let c = Constant::new(&rec("Boltzmann constant", 1.380_649e-23, Some("J K^-1"), None)).unwrap();
    assert_eq!(c.name(), "Boltzmann constant");
    assert_eq!(f64::from_bits(c.value_bits()), 1.380_649e-23);
    assert_eq!(c.si_base_units(), Some("J K^-1"));
    assert!(c.is_exact());
    assert!(!c.is_dimensionless());
}

#[test]
fn each_invalid_field_is_named() {
    assert_eq!(Constant::new(&rec("", 1.0, None, None)).err(), Some(InvalidConstant::EmptyName));
    assert_eq!(Constant::new(&rec("v", f64::NAN, None, None)).err(), Some(InvalidConstant::NonFiniteValue));
    assert_eq!(
        Constant::new(&rec("v", f64::NEG_INFINITY, None, None)).err(),
        Some(InvalidConstant::NonFiniteValue)
    );
    assert_eq!(
        Constant::new(&rec("u", 1.0, None, Some(f64::INFINITY))).err(),
        Some(InvalidConstant::NonFiniteUncertainty)
    );
    assert_eq!(
        Constant::new(&rec("u", 1.0, None, Some(-0.5))).err(),
        Some(InvalidConstant::NegativeUncertainty)
    );
    assert_eq!(Constant::new(&rec("", f64::NAN, None, Some(-1.0))).err(), Some(InvalidConstant::EmptyName));
}

#[test]
fn negative_zero_uncertainty_and_negative_value_are_accepted() {
    assert!(Constant::new(&rec("u", 1.0, None, Some(-0.0))).is_ok());
    assert!(Constant::new(&rec("v", -8.890_597_04, None, Some(0.0))).is_ok());
    assert!(Constant::new(&rec("w", f64::MAX, Some(""), None)).is_ok());
}

#[test]
fn empty_and_absent_units_are_dimensionless() {
    let a = Constant::new(&rec("a", 1.0, None, None)).unwrap();
    let b = Constant::new(&rec("b", 1.0, Some(""), None)).unwrap();
    assert!(a.is_dimensionless());
    assert!(b.is_dimensionless());
    assert_eq!(a.si_base_units(), None);
    assert_eq!(b.si_base_units(), Some(""));
}

#[test]
fn same_data_ignores_name_and_zero_sign() {
    let a = Constant::new(&rec("a", 0.0, None, Some(1.0))).unwrap();
    let b = Constant::new(&rec("b", -0.0, Some(""), Some(1.0))).unwrap();
    let c = Constant::new(&rec("c", 0.0, None, None)).unwrap();
    assert!(a.same_data_as(&b));
    assert!(!a.same_data_as(&c));
}

#[test]
fn bit_pattern_predicates() {
    assert!(finite_bits(1.5f64.to_bits()));
    assert!(finite_bits(f64::MIN_POSITIVE.to_bits()));
    assert!(!finite_bits(f64::INFINITY.to_bits()));
    assert!(!finite_bits(f64::NAN.to_bits()));
    assert!(negative_bits((-1e-300f64).to_bits()));
    assert!(!negative_bits((-0.0f64).to_bits()));
    assert!(!negative_bits(0.25f64.to_bits()));
    assert!(equal_numbers(0.0f64.to_bits(), (-0.0f64).to_bits()));
    assert!(equal_numbers(3.0f64.to_bits(), 3.0f64.to_bits()));
    assert!(!equal_numbers(3.0f64.to_bits(), (-3.0f64).to_bits()));
}
