use propfirm::fixed::{Fixed, SCALE};
use propfirm::instrument::{InstrumentRegistry, InstrumentSpec};
use propfirm::types::{Lots, Price, Quantity, Symbol};

#[test]
fn fx_spec_converts_units_and_lots() {
    let spec = InstrumentSpec::fx("EURUSD");
    // 100,000 units = 1.0 lot.
    assert_eq!(spec.units_to_lots(Quantity(100_000 * SCALE)).0, SCALE);
    assert_eq!(spec.lots_to_units(Lots(SCALE)).0, 100_000 * SCALE);
    // 0.1 lot = 10,000 units.
    assert_eq!(spec.lots_to_units(Lots(SCALE / 10)).0, 10_000 * SCALE);
}

#[test]
fn cfd_spec_identity_conversion() {
    let spec = InstrumentSpec::cfd("XAUUSD");
    assert_eq!(spec.units_to_lots(Quantity(5 * SCALE)).0, 5 * SCALE);
}

#[test]
fn registry_falls_back_to_default_spec() {
    let reg = InstrumentRegistry::new();
    let spec = reg.get(&Symbol::new("UNKNOWN"));
    assert_eq!(spec.contract_size, Fixed(SCALE), "unknown symbols use 1 unit = 1 lot");
}

#[test]
fn registry_register_and_get() {
    let mut reg = InstrumentRegistry::new();
    reg.register(InstrumentSpec::fx("EURUSD"));
    assert_eq!(reg.get(&Symbol::new("eurusd")).contract_size, Fixed(100_000 * SCALE));
}

#[test]
fn notional_uses_contract_size() {
    let spec = InstrumentSpec::fx("EURUSD");
    let n = spec.notional(Lots(SCALE), Price(108_000_000));
    assert_eq!(n.0, 108_000 * SCALE);
}

#[test]
fn fx_jpy_has_three_digits() {
    let spec = InstrumentSpec::fx_jpy("USDJPY");
    assert_eq!(spec.digits, 3);
    assert_eq!(spec.contract_size, Fixed(100_000 * SCALE));
}

#[test]
fn later_registration_replaces_earlier() {
    let mut reg = InstrumentRegistry::new();
    reg.register(InstrumentSpec::fx("EURUSD"));
    reg.register(InstrumentSpec::cfd("eurusd"));
    assert_eq!(reg.get(&Symbol::new("EURUSD")).contract_size, Fixed(SCALE));
}

#[test]
fn validate_rejects_non_positive_contract_size() {
    let mut spec = InstrumentSpec::cfd("X");
    assert!(InstrumentRegistry::validate(&spec).is_ok());
    spec.contract_size = Fixed(0);
    assert!(InstrumentRegistry::validate(&spec).is_err());
    spec.contract_size = Fixed(SCALE);
    spec.pip_size = Fixed(-1);
    assert!(InstrumentRegistry::validate(&spec).is_err());
}
