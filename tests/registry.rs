use physical_constants::constant::{InvalidConstant, Record};
use physical_constants::registry::{Conflict, DatasetCorrupt, NotFound, RecordError, Registry};

fn rec(name: &str, value: f64, unit: Option<&str>, uncertainty: Option<f64>) -> Record {
    Record::new(
        name.to_string(),
        value.to_bits(),
        unit.map(|u| u.to_string()),
        uncertainty.map(|u| u.to_bits()),
    )
}

#[test]
fn single_record_is_found_unchanged() {
    let r = rec("electron mass", 9.109_383_713_9e-31, Some("kg"), Some(0.000_000_002_8e-31));
    let registry = Registry::load(&[r.clone()]).unwrap();
    assert_eq!(registry.count(), 1);
    let c = registry.lookup(&r.name).unwrap();
    assert_eq!(c.name(), "electron mass");
    assert_eq!(c.value_bits(), r.value_bits);
    assert_eq!(c.si_base_units(), Some("kg"));
    assert_eq!(c.uncertainty_bits(), r.uncertainty_bits);
    assert!(registry.conflicts().is_empty());
}

#[test]
fn loading_twice_gives_equal_registries() {
    let data = vec![
        rec("Planck constant", 6.626_070_15e-34, Some("J Hz^-1"), None),
        rec("fine-structure constant", 7.297_352_564_3e-3, None, Some(0.000_000_001_1e-3)),
        rec("Planck  Constant", 6.626_070_15e-34, Some("J Hz^-1"), None),
    ];
    let a = Registry::load(&data).unwrap();
    let b = Registry::load(&data).unwrap();
    assert_eq!(a.count(), b.count());
    assert_eq!(a.count(), 2);
    for q in ["planck constant", "FINE-STRUCTURE CONSTANT", "nothing"] {
        let x = a.lookup(q).map(|c| (c.name().to_string(), c.value_bits()));
        let y = b.lookup(q).map(|c| (c.name().to_string(), c.value_bits()));
        assert_eq!(x, y);
    }
}

#[test]
fn lookup_ignores_case_and_spacing() {
    let data = vec![rec("speed of light in vacuum", 299_792_458.0, Some("m s^-1"), None)];
    let registry = Registry::load(&data).unwrap();
    let c = registry.lookup("  Speed Of Light In Vacuum  ").unwrap();
    assert_eq!(c.name(), "speed of light in vacuum");
    assert!(registry.lookup("speed\tof   light\nin vacuum").is_ok());
    assert!(registry.lookup("speedof light in vacuum").is_err());
}

#[test]
fn unknown_name_is_not_found() {
    let data = vec![rec("speed of light in vacuum", 299_792_458.0, Some("m s^-1"), None)];
    let registry = Registry::load(&data).unwrap();
    assert_eq!(registry.lookup("not a real constant").err(), Some(NotFound));
    let empty = Registry::load(&[]).unwrap();
    assert_eq!(empty.count(), 0);
    assert_eq!(empty.lookup("").err(), Some(NotFound));
}

#[test]
fn conflicting_duplicate_keeps_the_first() {
    let data = vec![
        rec("deuteron mag. mom. to nuclear magneton ratio", 0.857_438_233_5, None, Some(0.000_000_002_2)),
        rec("Deuteron Mag. Mom. to Nuclear Magneton Ratio", -0.448_206_52, None, Some(0.000_000_05)),
    ];
    let registry = Registry::load(&data).unwrap();
    assert_eq!(registry.count(), 1);
    assert_eq!(
        registry.conflicts(),
        &[Conflict {
            index: 1,
            name: "Deuteron Mag. Mom. to Nuclear Magneton Ratio".to_string(),
        }]
    );
    let kept = registry.lookup("deuteron mag. mom. to nuclear magneton ratio").unwrap();
    assert_eq!(kept.value_bits(), 0.857_438_233_5f64.to_bits());
}

#[test]
fn identical_duplicate_is_dropped_silently() {
    let r = rec("muon mag. mom. to nuclear magneton ratio", -8.890_597_04, None, Some(0.000_000_2));
    let registry = Registry::load(&[r.clone(), r.clone()]).unwrap();
    assert_eq!(registry.count(), 1);
    assert!(registry.conflicts().is_empty());
}

#[test]
fn restatement_with_other_zero_sign_or_empty_unit_is_no_conflict() {
    let data = vec![
        rec("zero thing", 0.0, None, Some(0.0)),
        rec("Zero  Thing", -0.0, Some(""), Some(-0.0)),
    ];
    let registry = Registry::load(&data).unwrap();
    assert_eq!(registry.count(), 1);
    assert!(registry.conflicts().is_empty());
}

#[test]
fn differing_unit_or_uncertainty_is_a_conflict() {
    let data = vec![
        rec("x", 1.0, Some("m"), None),
        rec("X", 1.0, Some("s"), None),
        rec("x ", 1.0, Some("m"), Some(0.5)),
        rec(" x", 1.0, None, None),
    ];
    let registry = Registry::load(&data).unwrap();
    assert_eq!(registry.count(), 1);
    let indices: Vec<usize> = registry.conflicts().iter().map(|c| c.index).collect();
    assert_eq!(indices, vec![1, 2, 3]);
}

#[test]
fn every_invalid_record_is_reported() {
    let data = vec![
        rec("", 1.0, None, None),
        rec("fine", 1.0, None, None),
        rec("nan value", f64::NAN, None, None),
        rec("inf value", f64::INFINITY, None, None),
        rec("inf uncertainty", 1.0, None, Some(f64::NEG_INFINITY)),
        rec("nan uncertainty", 1.0, None, Some(f64::NAN)),
        rec("negative uncertainty", 1.0, None, Some(-1e-9)),
        rec("fine too", 2.0, Some("kg"), Some(0.0)),
    ];
    let err = Registry::load(&data).err().unwrap();
    assert_eq!(
        err,
        DatasetCorrupt {
            errors: vec![
                RecordError { index: 0, error: InvalidConstant::EmptyName },
                RecordError { index: 2, error: InvalidConstant::NonFiniteValue },
                RecordError { index: 3, error: InvalidConstant::NonFiniteValue },
                RecordError { index: 4, error: InvalidConstant::NonFiniteUncertainty },
                RecordError { index: 5, error: InvalidConstant::NonFiniteUncertainty },
                RecordError { index: 6, error: InvalidConstant::NegativeUncertainty },
            ],
        }
    );
}

#[test]
fn all_keeps_dataset_order() {
    let data = vec![
        rec("c", 3.0, None, None),
        rec("a", 1.0, None, None),
        rec("C", 3.0, None, None),
        rec("b", 2.0, None, None),
    ];
    let registry = Registry::load(&data).unwrap();
    let names: Vec<&str> = registry.all().iter().map(|c| c.name()).collect();
    assert_eq!(names, vec!["c", "a", "b"]);
    assert_eq!(registry.count(), 3);
}
