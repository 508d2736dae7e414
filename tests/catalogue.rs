use sci_units::{
    convertible, find_unit, product, quotient, relation, square_root, sum, DecibelType, Relation,
    Unit, RELATION_COUNT, SIGNIFICANT_FIGURES, UNIT_COUNT,
};

#[test]
fn lib_config_operations() {
    println!("SIGNIFICANT_FIGURES: {}", SIGNIFICANT_FIGURES);
    assert_eq!(SIGNIFICANT_FIGURES, 12);
}

#[test]
fn find_unit_by_name() {
    assert_eq!(find_unit("Length"), Some(Unit::Length));
    assert_eq!(find_unit("ElectricPotential"), Some(Unit::ElectricPotential));
    assert_eq!(find_unit("FootPounds"), Some(Unit::FootPounds));
    assert_eq!(find_unit("Scalar"), Some(Unit::Scalar));
    assert_eq!(find_unit("Furlong"), None);
    assert_eq!(find_unit(""), None);
    assert_eq!(find_unit("length"), None);
}

#[test]
fn every_kind_is_found_by_its_name() {
    for i in 0..UNIT_COUNT {
        let u = Unit::at(i);
        assert_eq!(find_unit(u.kind_name()), Some(u));
    }
}

#[test]
fn labels_of_kinds() {
    assert_eq!(Unit::ElectricPotential.label(), "volts");
    assert_eq!(Unit::ElectricCurrent.label(), "amps");
    assert_eq!(Unit::ElectricCharge.label(), "coulombs");
    assert_eq!(Unit::Mass.label(), "kilograms");
    assert_eq!(Unit::DegreesFahrenheit.label(), "degreesF");
    assert_eq!(Unit::Mass.literal_suffix(), "g");
    assert_eq!(Unit::AngularVelocity.literal_suffix(), "");
    assert_eq!(Unit::Mass.literal_exponent(), -3);
    assert_eq!(Unit::Length.literal_exponent(), 0);
}

#[test]
fn decibel_factors() {
    assert_eq!(DecibelType::Power.factor(), 10);
    assert_eq!(DecibelType::Signal.factor(), 20);
}

#[test]
fn declared_products_and_their_divisions() {
    let cases = [
        (Unit::Area, Unit::Length, Unit::Length),
        (Unit::Volume, Unit::Area, Unit::Length),
        (Unit::Force, Unit::Mass, Unit::Acceleration),
        (Unit::Power, Unit::Energy, Unit::Frequency),
        (Unit::Energy, Unit::Force, Unit::Length),
        (Unit::EnergyPerFrequency, Unit::Energy, Unit::Time),
        (Unit::Length, Unit::Time, Unit::Velocity),
        (Unit::LuminousFlux, Unit::LuminousIntensity, Unit::SolidAngle),
        (Unit::DynamicViscosity, Unit::Pressure, Unit::Time),
        (Unit::MomentOfForce, Unit::Force, Unit::OrthogonalLength),
        (Unit::AngularVelocity, Unit::PlaneAngle, Unit::Frequency),
        (Unit::AngularAcceleration, Unit::AngularVelocity, Unit::Frequency),
        (Unit::ElectricChargeDensity, Unit::ElectricFluxDensity, Unit::Length),
        (Unit::AreaSolidAngle, Unit::Area, Unit::SolidAngle),
        (Unit::MassThermodynamicTemperature, Unit::Mass, Unit::ThermodynamicTemperature),
        (Unit::LengthThermodynamicTemperature, Unit::Length, Unit::ThermodynamicTemperature),
    ];
    for (result, left, right) in cases {
        assert_eq!(product(left, right), Some(result));
        assert_eq!(product(right, left), Some(result));
        assert_eq!(quotient(result, right), Some(left));
        assert_eq!(quotient(result, left), Some(right));
    }
}

#[test]
fn declared_quotients() {
    let cases = [
        (Unit::MassDensity, Unit::Mass, Unit::Volume),
        (Unit::Velocity, Unit::Length, Unit::Time),
        (Unit::Acceleration, Unit::Velocity, Unit::Time),
        (Unit::Pressure, Unit::Force, Unit::Area),
        (Unit::Power, Unit::Energy, Unit::Time),
        (Unit::ElectricPotential, Unit::Power, Unit::ElectricCurrent),
        (Unit::ElectricCharge, Unit::ElectricCurrent, Unit::Time),
        (Unit::Capacitance, Unit::ElectricCharge, Unit::ElectricPotential),
        (Unit::ElectricResistance, Unit::ElectricPotential, Unit::ElectricCurrent),
        (Unit::ElectricConductance, Unit::ElectricCurrent, Unit::ElectricPotential),
        (Unit::Inductance, Unit::MagneticFlux, Unit::ElectricCurrent),
        (Unit::Illuminance, Unit::LuminousIntensity, Unit::Area),
        (Unit::HeatCapacity, Unit::Energy, Unit::ThermodynamicTemperature),
        (Unit::ThermalConductivity, Unit::Length, Unit::LengthThermodynamicTemperature),
        (Unit::Radiance, Unit::Power, Unit::AreaSolidAngle),
    ];
    for (name, lhs, rhs) in cases {
        assert_eq!(quotient(lhs, rhs), Some(name));
        assert_eq!(quotient(lhs, name), Some(rhs));
        assert_eq!(product(rhs, name), Some(lhs));
        assert_eq!(product(name, rhs), Some(lhs));
    }
}

#[test]
fn every_relationship_of_the_table_inverts() {
    for i in 0..RELATION_COUNT {
        match relation(i) {
            Relation::Product { result, left, right } => {
                assert_eq!(product(left, right), Some(result));
                assert_eq!(quotient(result, right), Some(left));
                assert_eq!(quotient(result, left), Some(right));
            }
            Relation::Square { base, result } => {
                assert_eq!(product(base, base), Some(result));
                assert_eq!(quotient(result, base), Some(base));
                assert_eq!(square_root(result), Some(base));
            }
            Relation::Inverse { base, result } => {
                assert_eq!(product(base, result), Some(Unit::Scalar));
                assert_eq!(quotient(Unit::Scalar, base), Some(result));
                assert_eq!(quotient(Unit::Scalar, result), Some(base));
            }
            Relation::Conversion { from, to } => {
                assert!(convertible(from, to));
                assert!(convertible(to, from));
            }
        }
    }
}

#[test]
fn scalar_scaling_and_same_kind_division() {
    assert_eq!(product(Unit::Power, Unit::Scalar), Some(Unit::Power));
    assert_eq!(product(Unit::Scalar, Unit::Power), Some(Unit::Power));
    assert_eq!(quotient(Unit::Power, Unit::Scalar), Some(Unit::Power));
    assert_eq!(quotient(Unit::Power, Unit::Power), Some(Unit::Scalar));
    assert_eq!(product(Unit::Scalar, Unit::Scalar), Some(Unit::Scalar));
    assert_eq!(quotient(Unit::Torque, Unit::Torque), Some(Unit::Scalar));
}

#[test]
fn undeclared_operations_are_refused() {
    assert_eq!(product(Unit::Length, Unit::Mass), None);
    assert_eq!(quotient(Unit::Mass, Unit::Length), None);
    assert_eq!(product(Unit::Torque, Unit::Torque), None);
    assert_eq!(sum(Unit::Length, Unit::Time), None);
    assert_eq!(sum(Unit::Length, Unit::Length), Some(Unit::Length));
    assert_eq!(square_root(Unit::Volume), None);
    assert!(!convertible(Unit::Feet, Unit::Mass));
}

#[test]
fn square_root_of_square() {
    assert_eq!(square_root(Unit::Area), Some(Unit::Length));
    assert_eq!(square_root(Unit::FrequencySquared), Some(Unit::Frequency));
    assert_eq!(square_root(Unit::VelocitySquared), Some(Unit::Velocity));
    assert_eq!(square_root(Unit::AngularVelocitySquared), Some(Unit::AngularVelocity));
    assert_eq!(square_root(Unit::Scalar), Some(Unit::Scalar));
    for i in 0..UNIT_COUNT {
        let b = Unit::at(i);
        if let Some(s) = product(b, b) {
            assert_eq!(square_root(s), Some(b));
        }
    }
}

#[test]
fn reciprocal_twice_gives_back_the_kind() {
    assert_eq!(quotient(Unit::Scalar, Unit::Frequency), Some(Unit::Time));
    assert_eq!(quotient(Unit::Scalar, Unit::Time), Some(Unit::Frequency));
    assert_eq!(quotient(Unit::Scalar, Unit::LengthInverse), Some(Unit::Length));
    assert_eq!(quotient(Unit::Scalar, Unit::AmountOfSubstance), Some(Unit::PerAmountOfSubstance));
    for i in 0..UNIT_COUNT {
        let x = Unit::at(i);
        if let Some(y) = quotient(Unit::Scalar, x) {
            assert_eq!(quotient(Unit::Scalar, y), Some(x));
        }
    }
}

#[test]
fn products_divide_back_for_every_pair() {
    for i in 0..UNIT_COUNT {
        for j in 0..UNIT_COUNT {
            let (l, r) = (Unit::at(i), Unit::at(j));
            if let Some(p) = product(l, r) {
                assert_eq!(quotient(p, r), Some(l));
                assert_eq!(quotient(p, l), Some(r));
            }
        }
    }
}

#[test]
fn conversions_go_both_ways() {
    assert!(convertible(Unit::Temperature, Unit::DegreesFahrenheit));
    assert!(convertible(Unit::DegreesFahrenheit, Unit::Temperature));
    assert!(convertible(Unit::Length, Unit::Feet));
    assert!(convertible(Unit::Feet, Unit::Length));
    assert!(convertible(Unit::Volume, Unit::Liters));
    assert!(convertible(Unit::Torque, Unit::FootPounds));
    assert!(convertible(Unit::Length, Unit::OrthogonalLength));
}

#[test]
fn readme_kinds() {
    assert_eq!(quotient(Unit::Length, Unit::Time), Some(Unit::Velocity));
    assert_eq!(product(Unit::ElectricCurrent, Unit::ElectricResistance), Some(Unit::ElectricPotential));
    assert_eq!(product(Unit::Scalar, Unit::ElectricPotential), Some(Unit::ElectricPotential));
    let ratio = quotient(Unit::ElectricResistance, Unit::ElectricResistance);
    assert_eq!(ratio, Some(Unit::Scalar));
    assert_eq!(product(Unit::ElectricPotential, Unit::Scalar), Some(Unit::ElectricPotential));
}
