use vstd::prelude::*;

use crate::catalogue::Unit;

verus! {

/// A declared relationship between quantity kinds.
#[derive(Clone, Copy, PartialEq, Eq, Structural, Debug)]
pub enum Relation {
    /// `left * right -> result`, in either order, with the two divisions
    /// `result / right -> left` and `result / left -> right`.
    Product { result: Unit, left: Unit, right: Unit },
    /// `base * base -> result`, and `sqrt(result) -> base`.
    Square { base: Unit, result: Unit },
    /// `base * result -> Scalar`, `Scalar / base -> result` and
    /// `Scalar / result -> base`.
    Inverse { base: Unit, result: Unit },
    /// A linear conversion between two units of one quantity.
    Conversion { from: Unit, to: Unit },
}

/// Number of relationships in the table.
pub const RELATION_COUNT: usize = 85;

/// The relationship at position `i` of the table.
pub open spec fn relation_at(i: int) -> Relation {
    if i == 0 {
        Relation::Inverse { base: Unit::Length, result: Unit::LengthInverse }
    } else if i == 1 {
        Relation::Square { base: Unit::Length, result: Unit::Area }
    } else if i == 2 {
        Relation::Product { result: Unit::Volume, left: Unit::Area, right: Unit::Length }
    } else if i == 3 {
        Relation::Conversion { from: Unit::Volume, to: Unit::Liters }
    } else if i == 4 {
        Relation::Inverse { base: Unit::Time, result: Unit::Frequency }
    } else if i == 5 {
        Relation::Square { base: Unit::Frequency, result: Unit::FrequencySquared }
    } else if i == 6 {
        Relation::Product { result: Unit::Mass, left: Unit::MassDensity, right: Unit::Volume }
    } else if i == 7 {
        Relation::Inverse { base: Unit::PlaneAngle, result: Unit::PlaneAngleInverse }
    } else if i == 8 {
        Relation::Product { result: Unit::Length, left: Unit::Velocity, right: Unit::Time }
    } else if i == 9 {
        Relation::Square { base: Unit::Velocity, result: Unit::VelocitySquared }
    } else if i == 10 {
        Relation::Product { result: Unit::Velocity, left: Unit::Acceleration, right: Unit::Time }
    } else if i == 11 {
        Relation::Product { result: Unit::Acceleration, left: Unit::Jerk, right: Unit::Time }
    } else if i == 12 {
        Relation::Product { result: Unit::Force, left: Unit::Mass, right: Unit::Acceleration }
    } else if i == 13 {
        Relation::Product { result: Unit::Force, left: Unit::Pressure, right: Unit::Area }
    } else if i == 14 {
        Relation::Product { result: Unit::Power, left: Unit::Energy, right: Unit::Frequency }
    } else if i == 15 {
        Relation::Product { result: Unit::Energy, left: Unit::Power, right: Unit::Time }
    } else if i == 16 {
        Relation::Product { result: Unit::Energy, left: Unit::Force, right: Unit::Length }
    } else if i == 17 {
        Relation::Product { result: Unit::EnergyPerFrequency, left: Unit::Energy, right: Unit::Time }
    } else if i == 18 {
        Relation::Product { result: Unit::Energy, left: Unit::EnergyPerFrequency, right: Unit::Frequency }
    } else if i == 19 {
        Relation::Product { result: Unit::Power, left: Unit::ElectricPotential, right: Unit::ElectricCurrent }
    } else if i == 20 {
        Relation::Product { result: Unit::ElectricCurrent, left: Unit::ElectricCharge, right: Unit::Time }
    } else if i == 21 {
        Relation::Product { result: Unit::ElectricCharge, left: Unit::Capacitance, right: Unit::ElectricPotential }
    } else if i == 22 {
        Relation::Product { result: Unit::ElectricPotential, left: Unit::ElectricResistance, right: Unit::ElectricCurrent }
    } else if i == 23 {
        Relation::Product { result: Unit::ElectricCurrent, left: Unit::ElectricConductance, right: Unit::ElectricPotential }
    } else if i == 24 {
        Relation::Product { result: Unit::MagneticFlux, left: Unit::MagneticFluxDensity, right: Unit::Area }
    } else if i == 25 {
        Relation::Product { result: Unit::MagneticFlux, left: Unit::Inductance, right: Unit::ElectricCurrent }
    } else if i == 26 {
        Relation::Inverse { base: Unit::AmountOfSubstance, result: Unit::PerAmountOfSubstance }
    } else if i == 27 {
        Relation::Product { result: Unit::LuminousFlux, left: Unit::LuminousIntensity, right: Unit::SolidAngle }
    } else if i == 28 {
        Relation::Product { result: Unit::LuminousIntensity, left: Unit::Illuminance, right: Unit::Area }
    } else if i == 29 {
        Relation::Product { result: Unit::DynamicViscosity, left: Unit::Pressure, right: Unit::Time }
    } else if i == 30 {
        Relation::Product { result: Unit::MomentOfForce, left: Unit::Force, right: Unit::OrthogonalLength }
    } else if i == 31 {
        Relation::Product { result: Unit::AngularVelocity, left: Unit::PlaneAngle, right: Unit::Frequency }
    } else if i == 32 {
        Relation::Product { result: Unit::PlaneAngle, left: Unit::AngularVelocity, right: Unit::Time }
    } else if i == 33 {
        Relation::Square { base: Unit::AngularVelocity, result: Unit::AngularVelocitySquared }
    } else if i == 34 {
        Relation::Product { result: Unit::AngularAcceleration, left: Unit::AngularVelocity, right: Unit::Frequency }
    } else if i == 35 {
        Relation::Product { result: Unit::AngularVelocity, left: Unit::AngularAcceleration, right: Unit::Time }
    } else if i == 36 {
        Relation::Product { result: Unit::Force, left: Unit::SurfaceTension, right: Unit::Length }
    } else if i == 37 {
        Relation::Product { result: Unit::Power, left: Unit::HeatFluxDensity, right: Unit::Area }
    } else if i == 38 {
        Relation::Product { result: Unit::Energy, left: Unit::HeatCapacity, right: Unit::ThermodynamicTemperature }
    } else if i == 39 {
        Relation::Product { result: Unit::Energy, left: Unit::SpecificHeatCapacity, right: Unit::MassThermodynamicTemperature }
    } else if i == 40 {
        Relation::Product { result: Unit::Energy, left: Unit::SpecificEnergy, right: Unit::Mass }
    } else if i == 41 {
        Relation::Product { result: Unit::Energy, left: Unit::EnergyDensity, right: Unit::Volume }
    } else if i == 42 {
        Relation::Product { result: Unit::ElectricPotential, left: Unit::ElectricFieldStrength, right: Unit::Length }
    } else if i == 43 {
        Relation::Product { result: Unit::ElectricCharge, left: Unit::ElectricFluxDensity, right: Unit::Area }
    } else if i == 44 {
        Relation::Product { result: Unit::ElectricChargeDensity, left: Unit::ElectricFluxDensity, right: Unit::Length }
    } else if i == 45 {
        Relation::Product { result: Unit::ElectricCharge, left: Unit::ElectricChargeDensity, right: Unit::Volume }
    } else if i == 46 {
        Relation::Product { result: Unit::Capacitance, left: Unit::Permittivity, right: Unit::Length }
    } else if i == 47 {
        Relation::Product { result: Unit::Inductance, left: Unit::Permeability, right: Unit::Length }
    } else if i == 48 {
        Relation::Product { result: Unit::Energy, left: Unit::MolarEnergy, right: Unit::AmountOfSubstance }
    } else if i == 49 {
        Relation::Product { result: Unit::AmountOfSubstanceThermodynamicTemperature, left: Unit::AmountOfSubstance, right: Unit::ThermodynamicTemperature }
    } else if i == 50 {
        Relation::Product { result: Unit::Energy, left: Unit::MolarHeatCapacity, right: Unit::AmountOfSubstanceThermodynamicTemperature }
    } else if i == 51 {
        Relation::Product { result: Unit::AreaSolidAngle, left: Unit::Area, right: Unit::SolidAngle }
    } else if i == 52 {
        Relation::Product { result: Unit::Power, left: Unit::Radiance, right: Unit::AreaSolidAngle }
    } else if i == 53 {
        Relation::Product { result: Unit::MassThermodynamicTemperature, left: Unit::Mass, right: Unit::ThermodynamicTemperature }
    } else if i == 54 {
        Relation::Product { result: Unit::LengthThermodynamicTemperature, left: Unit::Length, right: Unit::ThermodynamicTemperature }
    } else if i == 55 {
        Relation::Product { result: Unit::Length, left: Unit::ThermalConductivity, right: Unit::LengthThermodynamicTemperature }
    } else if i == 56 {
        Relation::Conversion { from: Unit::Length, to: Unit::Feet }
    } else if i == 57 {
        Relation::Conversion { from: Unit::Length, to: Unit::Yard }
    } else if i == 58 {
        Relation::Conversion { from: Unit::Length, to: Unit::Inch }
    } else if i == 59 {
        Relation::Conversion { from: Unit::Length, to: Unit::Miles }
    } else if i == 60 {
        Relation::Conversion { from: Unit::Area, to: Unit::Acres }
    } else if i == 61 {
        Relation::Conversion { from: Unit::Area, to: Unit::SquareMiles }
    } else if i == 62 {
        Relation::Conversion { from: Unit::Volume, to: Unit::Pints }
    } else if i == 63 {
        Relation::Conversion { from: Unit::Volume, to: Unit::Quarts }
    } else if i == 64 {
        Relation::Conversion { from: Unit::Volume, to: Unit::Gallons }
    } else if i == 65 {
        Relation::Conversion { from: Unit::PlaneAngle, to: Unit::Degrees }
    } else if i == 66 {
        Relation::Conversion { from: Unit::AngularVelocity, to: Unit::DegreesPerSecond }
    } else if i == 67 {
        Relation::Conversion { from: Unit::AngularAcceleration, to: Unit::DegreesPerSecondSquared }
    } else if i == 68 {
        Relation::Conversion { from: Unit::Temperature, to: Unit::DegreesFahrenheit }
    } else if i == 69 {
        Relation::Conversion { from: Unit::ThermodynamicTemperature, to: Unit::DegreesRankine }
    } else if i == 70 {
        Relation::Conversion { from: Unit::PlaneAngle, to: Unit::Revolutions }
    } else if i == 71 {
        Relation::Conversion { from: Unit::AngularVelocity, to: Unit::RevolutionsPerMinute }
    } else if i == 72 {
        Relation::Conversion { from: Unit::Length, to: Unit::NauticalMiles }
    } else if i == 73 {
        Relation::Conversion { from: Unit::Velocity, to: Unit::Knots }
    } else if i == 74 {
        Relation::Conversion { from: Unit::Velocity, to: Unit::FeetPerSecond }
    } else if i == 75 {
        Relation::Conversion { from: Unit::Acceleration, to: Unit::FeetPerSecondSquared }
    } else if i == 76 {
        Relation::Conversion { from: Unit::Acceleration, to: Unit::G }
    } else if i == 77 {
        Relation::Conversion { from: Unit::Force, to: Unit::PoundsForce }
    } else if i == 78 {
        Relation::Conversion { from: Unit::Mass, to: Unit::Pounds }
    } else if i == 79 {
        Relation::Conversion { from: Unit::Mass, to: Unit::Ounces }
    } else if i == 80 {
        Relation::Conversion { from: Unit::Pressure, to: Unit::PoundsPerSquareInch }
    } else if i == 81 {
        Relation::Conversion { from: Unit::Pressure, to: Unit::PoundsPerSquareFoot }
    } else if i == 82 {
        Relation::Conversion { from: Unit::Pressure, to: Unit::InchesMercury }
    } else if i == 83 {
        Relation::Conversion { from: Unit::Torque, to: Unit::FootPounds }
    } else {
        Relation::Conversion { from: Unit::Length, to: Unit::OrthogonalLength }
    }
}

/// The relationship at position `i` of the table.
pub fn relation(i: usize) -> (r: Relation)
    requires
        i < RELATION_COUNT,
    ensures
        r == relation_at(i as int),
{
    match i {
        0 => Relation::Inverse { base: Unit::Length, result: Unit::LengthInverse },
        1 => Relation::Square { base: Unit::Length, result: Unit::Area },
        2 => Relation::Product { result: Unit::Volume, left: Unit::Area, right: Unit::Length },
        3 => Relation::Conversion { from: Unit::Volume, to: Unit::Liters },
        4 => Relation::Inverse { base: Unit::Time, result: Unit::Frequency },
        5 => Relation::Square { base: Unit::Frequency, result: Unit::FrequencySquared },
        6 => Relation::Product { result: Unit::Mass, left: Unit::MassDensity, right: Unit::Volume },
        7 => Relation::Inverse { base: Unit::PlaneAngle, result: Unit::PlaneAngleInverse },
        8 => Relation::Product { result: Unit::Length, left: Unit::Velocity, right: Unit::Time },
        9 => Relation::Square { base: Unit::Velocity, result: Unit::VelocitySquared },
        10 => Relation::Product { result: Unit::Velocity, left: Unit::Acceleration, right: Unit::Time },
        11 => Relation::Product { result: Unit::Acceleration, left: Unit::Jerk, right: Unit::Time },
        12 => Relation::Product { result: Unit::Force, left: Unit::Mass, right: Unit::Acceleration },
        13 => Relation::Product { result: Unit::Force, left: Unit::Pressure, right: Unit::Area },
        14 => Relation::Product { result: Unit::Power, left: Unit::Energy, right: Unit::Frequency },
        15 => Relation::Product { result: Unit::Energy, left: Unit::Power, right: Unit::Time },
        16 => Relation::Product { result: Unit::Energy, left: Unit::Force, right: Unit::Length },
        17 => Relation::Product { result: Unit::EnergyPerFrequency, left: Unit::Energy, right: Unit::Time },
        18 => Relation::Product { result: Unit::Energy, left: Unit::EnergyPerFrequency, right: Unit::Frequency },
        19 => Relation::Product { result: Unit::Power, left: Unit::ElectricPotential, right: Unit::ElectricCurrent },
        20 => Relation::Product { result: Unit::ElectricCurrent, left: Unit::ElectricCharge, right: Unit::Time },
        21 => Relation::Product { result: Unit::ElectricCharge, left: Unit::Capacitance, right: Unit::ElectricPotential },
        22 => Relation::Product { result: Unit::ElectricPotential, left: Unit::ElectricResistance, right: Unit::ElectricCurrent },
        23 => Relation::Product { result: Unit::ElectricCurrent, left: Unit::ElectricConductance, right: Unit::ElectricPotential },
        24 => Relation::Product { result: Unit::MagneticFlux, left: Unit::MagneticFluxDensity, right: Unit::Area },
        25 => Relation::Product { result: Unit::MagneticFlux, left: Unit::Inductance, right: Unit::ElectricCurrent },
        26 => Relation::Inverse { base: Unit::AmountOfSubstance, result: Unit::PerAmountOfSubstance },
        27 => Relation::Product { result: Unit::LuminousFlux, left: Unit::LuminousIntensity, right: Unit::SolidAngle },
        28 => Relation::Product { result: Unit::LuminousIntensity, left: Unit::Illuminance, right: Unit::Area },
        29 => Relation::Product { result: Unit::DynamicViscosity, left: Unit::Pressure, right: Unit::Time },
        30 => Relation::Product { result: Unit::MomentOfForce, left: Unit::Force, right: Unit::OrthogonalLength },
        31 => Relation::Product { result: Unit::AngularVelocity, left: Unit::PlaneAngle, right: Unit::Frequency },
        32 => Relation::Product { result: Unit::PlaneAngle, left: Unit::AngularVelocity, right: Unit::Time },
        33 => Relation::Square { base: Unit::AngularVelocity, result: Unit::AngularVelocitySquared },
        34 => Relation::Product { result: Unit::AngularAcceleration, left: Unit::AngularVelocity, right: Unit::Frequency },
        35 => Relation::Product { result: Unit::AngularVelocity, left: Unit::AngularAcceleration, right: Unit::Time },
        36 => Relation::Product { result: Unit::Force, left: Unit::SurfaceTension, right: Unit::Length },
        37 => Relation::Product { result: Unit::Power, left: Unit::HeatFluxDensity, right: Unit::Area },
        38 => Relation::Product { result: Unit::Energy, left: Unit::HeatCapacity, right: Unit::ThermodynamicTemperature },
        39 => Relation::Product { result: Unit::Energy, left: Unit::SpecificHeatCapacity, right: Unit::MassThermodynamicTemperature },
        40 => Relation::Product { result: Unit::Energy, left: Unit::SpecificEnergy, right: Unit::Mass },
        41 => Relation::Product { result: Unit::Energy, left: Unit::EnergyDensity, right: Unit::Volume },
        42 => Relation::Product { result: Unit::ElectricPotential, left: Unit::ElectricFieldStrength, right: Unit::Length },
        43 => Relation::Product { result: Unit::ElectricCharge, left: Unit::ElectricFluxDensity, right: Unit::Area },
        44 => Relation::Product { result: Unit::ElectricChargeDensity, left: Unit::ElectricFluxDensity, right: Unit::Length },
        45 => Relation::Product { result: Unit::ElectricCharge, left: Unit::ElectricChargeDensity, right: Unit::Volume },
        46 => Relation::Product { result: Unit::Capacitance, left: Unit::Permittivity, right: Unit::Length },
        47 => Relation::Product { result: Unit::Inductance, left: Unit::Permeability, right: Unit::Length },
        48 => Relation::Product { result: Unit::Energy, left: Unit::MolarEnergy, right: Unit::AmountOfSubstance },
        49 => Relation::Product { result: Unit::AmountOfSubstanceThermodynamicTemperature, left: Unit::AmountOfSubstance, right: Unit::ThermodynamicTemperature },
        50 => Relation::Product { result: Unit::Energy, left: Unit::MolarHeatCapacity, right: Unit::AmountOfSubstanceThermodynamicTemperature },
        51 => Relation::Product { result: Unit::AreaSolidAngle, left: Unit::Area, right: Unit::SolidAngle },
        52 => Relation::Product { result: Unit::Power, left: Unit::Radiance, right: Unit::AreaSolidAngle },
        53 => Relation::Product { result: Unit::MassThermodynamicTemperature, left: Unit::Mass, right: Unit::ThermodynamicTemperature },
        54 => Relation::Product { result: Unit::LengthThermodynamicTemperature, left: Unit::Length, right: Unit::ThermodynamicTemperature },
        55 => Relation::Product { result: Unit::Length, left: Unit::ThermalConductivity, right: Unit::LengthThermodynamicTemperature },
        56 => Relation::Conversion { from: Unit::Length, to: Unit::Feet },
        57 => Relation::Conversion { from: Unit::Length, to: Unit::Yard },
        58 => Relation::Conversion { from: Unit::Length, to: Unit::Inch },
        59 => Relation::Conversion { from: Unit::Length, to: Unit::Miles },
        60 => Relation::Conversion { from: Unit::Area, to: Unit::Acres },
        61 => Relation::Conversion { from: Unit::Area, to: Unit::SquareMiles },
        62 => Relation::Conversion { from: Unit::Volume, to: Unit::Pints },
        63 => Relation::Conversion { from: Unit::Volume, to: Unit::Quarts },
        64 => Relation::Conversion { from: Unit::Volume, to: Unit::Gallons },
        65 => Relation::Conversion { from: Unit::PlaneAngle, to: Unit::Degrees },
        66 => Relation::Conversion { from: Unit::AngularVelocity, to: Unit::DegreesPerSecond },
        67 => Relation::Conversion { from: Unit::AngularAcceleration, to: Unit::DegreesPerSecondSquared },
        68 => Relation::Conversion { from: Unit::Temperature, to: Unit::DegreesFahrenheit },
        69 => Relation::Conversion { from: Unit::ThermodynamicTemperature, to: Unit::DegreesRankine },
        70 => Relation::Conversion { from: Unit::PlaneAngle, to: Unit::Revolutions },
        71 => Relation::Conversion { from: Unit::AngularVelocity, to: Unit::RevolutionsPerMinute },
        72 => Relation::Conversion { from: Unit::Length, to: Unit::NauticalMiles },
        73 => Relation::Conversion { from: Unit::Velocity, to: Unit::Knots },
        74 => Relation::Conversion { from: Unit::Velocity, to: Unit::FeetPerSecond },
        75 => Relation::Conversion { from: Unit::Acceleration, to: Unit::FeetPerSecondSquared },
        76 => Relation::Conversion { from: Unit::Acceleration, to: Unit::G },
        77 => Relation::Conversion { from: Unit::Force, to: Unit::PoundsForce },
        78 => Relation::Conversion { from: Unit::Mass, to: Unit::Pounds },
        79 => Relation::Conversion { from: Unit::Mass, to: Unit::Ounces },
        80 => Relation::Conversion { from: Unit::Pressure, to: Unit::PoundsPerSquareInch },
        81 => Relation::Conversion { from: Unit::Pressure, to: Unit::PoundsPerSquareFoot },
        82 => Relation::Conversion { from: Unit::Pressure, to: Unit::InchesMercury },
        83 => Relation::Conversion { from: Unit::Torque, to: Unit::FootPounds },
        _ => Relation::Conversion { from: Unit::Length, to: Unit::OrthogonalLength },
    }
}

/// Whether the table holds the relationship `r`.
pub open spec fn declared(r: Relation) -> bool {
    exists|i: int| 0 <= i < RELATION_COUNT && #[trigger] relation_at(i) == r
}

/// What the relationship `rel` makes of `l * r`, if it speaks of that product.
pub open spec fn product_by(rel: Relation, l: Unit, r: Unit) -> Option<Unit> {
    match rel {
        Relation::Product { result, left, right } => {
            if (l == left && r == right) || (l == right && r == left) {
                Some(result)
            } else {
                None
            }
        },
        Relation::Square { base, result } => {
            if l == base && r == base {
                Some(result)
            } else {
                None
            }
        },
        Relation::Inverse { base, result } => {
            if (l == base && r == result) || (l == result && r == base) {
                Some(Unit::Scalar)
            } else {
                None
            }
        },
        Relation::Conversion { .. } => None,
    }
}

/// `l * r` is legal and has kind `p`: scaling by a scalar keeps the kind, and
/// every other product comes from a declared relationship.
pub open spec fn multiplies_to(l: Unit, r: Unit, p: Unit) -> bool {
    ||| r == Unit::Scalar && p == l
    ||| l == Unit::Scalar && p == r
    ||| exists|i: int| 0 <= i < RELATION_COUNT && #[trigger] product_by(relation_at(i), l, r) == Some(p)
}

/// `n / d` is legal and has kind `q`: exactly when `q * d` is `n`.
pub open spec fn divides_to(n: Unit, d: Unit, q: Unit) -> bool {
    multiplies_to(q, d, n)
}

/// The kind of `l * r`, or `None` where the product is not legal.
pub open spec fn product_of(l: Unit, r: Unit) -> Option<Unit> {
    if exists|p: Unit| multiplies_to(l, r, p) {
        Some(choose|p: Unit| multiplies_to(l, r, p))
    } else {
        None
    }
}

/// The kind of `n / d`, or `None` where the quotient is not legal.
pub open spec fn quotient_of(n: Unit, d: Unit) -> Option<Unit> {
    if exists|q: Unit| divides_to(n, d, q) {
        Some(choose|q: Unit| divides_to(n, d, q))
    } else {
        None
    }
}

/// The kind of the square root of a value of kind `s`: the kind whose square
/// is `s`, or `None` where there is none.
pub open spec fn square_root_of(s: Unit) -> Option<Unit> {
    if exists|b: Unit| multiplies_to(b, b, s) {
        Some(choose|b: Unit| multiplies_to(b, b, s))
    } else {
        None
    }
}

/// The kind of `a + b` (and of `a - b`): only values of one kind add up.
pub open spec fn sum_of(a: Unit, b: Unit) -> Option<Unit> {
    if a == b {
        Some(a)
    } else {
        None
    }
}

/// Whether a value converts linearly between the units `a` and `b`, in either
/// direction.
pub open spec fn converts(a: Unit, b: Unit) -> bool {
    declared(Relation::Conversion { from: a, to: b }) || declared(
        Relation::Conversion { from: b, to: a },
    )
}

/// Multiplication of kinds is commutative.
pub proof fn lemma_multiplies_commute(l: Unit, r: Unit, p: Unit)
    requires
        multiplies_to(l, r, p),
    ensures
        multiplies_to(r, l, p),
{
    if !(r == Unit::Scalar && p == l) && !(l == Unit::Scalar && p == r) {
        let i = choose|i: int| 0 <= i < RELATION_COUNT && #[trigger] product_by(relation_at(i), l, r) == Some(p);
        assert(product_by(relation_at(i), r, l) == Some(p));
    }
}

/// Two products of the same operands have the same kind.
pub proof fn lemma_product_unique(l: Unit, r: Unit, p: Unit, q: Unit)
    requires
        multiplies_to(l, r, p),
        multiplies_to(l, r, q),
    ensures
        p == q,
{
}

/// Two quotients of the same operands have the same kind.
pub proof fn lemma_quotient_unique(n: Unit, d: Unit, p: Unit, q: Unit)
    requires
        divides_to(n, d, p),
        divides_to(n, d, q),
    ensures
        p == q,
{
}

/// At most one kind squares to a given kind.
pub proof fn lemma_square_root_unique(s: Unit, a: Unit, b: Unit)
    requires
        multiplies_to(a, a, s),
        multiplies_to(b, b, s),
    ensures
        a == b,
{
}

/// A legal product, divided by either of its operands, gives back the kind of
/// the other operand.
pub proof fn law_product_divides_back(l: Unit, r: Unit)
    requires
        product_of(l, r) is Some,
    ensures
        quotient_of(product_of(l, r).unwrap(), r) == Some(l),
        quotient_of(product_of(l, r).unwrap(), l) == Some(r),
{
    let p = product_of(l, r).unwrap();
    assert(multiplies_to(l, r, p));
    lemma_multiplies_commute(l, r, p);
    assert(divides_to(p, r, l));
    assert(divides_to(p, l, r));
    let by_right = choose|q: Unit| divides_to(p, r, q);
    lemma_quotient_unique(p, r, l, by_right);
    let by_left = choose|q: Unit| divides_to(p, l, q);
    lemma_quotient_unique(p, l, r, by_left);
}

/// For every declared product `result = left * right`, the product is legal
/// with that kind, and dividing it by either factor gives back the other.
pub proof fn law_cross_multiply(result: Unit, left: Unit, right: Unit)
    requires
        declared(Relation::Product { result, left, right }),
    ensures
        product_of(left, right) == Some(result),
        product_of(right, left) == Some(result),
        quotient_of(result, right) == Some(left),
        quotient_of(result, left) == Some(right),
{
    let i = choose|i: int| 0 <= i < RELATION_COUNT && #[trigger] relation_at(i) == Relation::Product { result, left, right };
    assert(product_by(relation_at(i), left, right) == Some(result));
    assert(product_by(relation_at(i), right, left) == Some(result));
    let first = choose|p: Unit| multiplies_to(left, right, p);
    lemma_product_unique(left, right, result, first);
    let second = choose|p: Unit| multiplies_to(right, left, p);
    lemma_product_unique(right, left, result, second);
    law_product_divides_back(left, right);
}

/// The square root of a square has the kind of the base.
pub proof fn law_square_root_of_square(b: Unit)
    requires
        product_of(b, b) is Some,
    ensures
        square_root_of(product_of(b, b).unwrap()) == Some(b),
{
    let s = product_of(b, b).unwrap();
    assert(multiplies_to(b, b, s));
    let c = choose|c: Unit| multiplies_to(c, c, s);
    lemma_square_root_unique(s, b, c);
}

/// Taking the reciprocal twice gives back the kind it started from:
/// `Scalar / (Scalar / x)` has the kind of `x`.
pub proof fn law_reciprocal_involution(x: Unit)
    requires
        quotient_of(Unit::Scalar, x) is Some,
    ensures
        quotient_of(Unit::Scalar, quotient_of(Unit::Scalar, x).unwrap()) == Some(x),
{
    let y = quotient_of(Unit::Scalar, x).unwrap();
    assert(divides_to(Unit::Scalar, x, y));
    lemma_multiplies_commute(y, x, Unit::Scalar);
    assert(divides_to(Unit::Scalar, y, x));
    let z = choose|z: Unit| divides_to(Unit::Scalar, y, z);
    lemma_quotient_unique(Unit::Scalar, y, x, z);
}

/// A conversion can always be undone: where a value converts from `a` to
/// `b`, it converts back from `b` to `a`.
pub proof fn law_conversion_round_trip(a: Unit, b: Unit)
    requires
        converts(a, b),
    ensures
        converts(b, a),
{
}

/// The kind of `l * r`, or `None` where the catalogue declares no such
/// product.
pub fn product(l: Unit, r: Unit) -> (res: Option<Unit>)
    ensures
        res == product_of(l, r),
{
    let found = find_product(l, r);
    proof {
        match found {
            Some(p) => {
                let c = choose|c: Unit| multiplies_to(l, r, c);
                lemma_product_unique(l, r, p, c);
            },
            None => {},
        }
    }
    found
}

fn find_product(l: Unit, r: Unit) -> (res: Option<Unit>)
    ensures
        match res {
            Some(p) => multiplies_to(l, r, p),
            None => forall|p: Unit| !multiplies_to(l, r, p),
        },
{
    if r == Unit::Scalar {
        return Some(l);
    }
    if l == Unit::Scalar {
        return Some(r);
    }
    let mut i: usize = 0;
    while i < RELATION_COUNT
        invariant
            i <= RELATION_COUNT,
            forall|j: int| 0 <= j < i ==> #[trigger] product_by(relation_at(j), l, r) is None,
        decreases RELATION_COUNT - i,
    {
        let rel = relation(i);
        let found = match rel {
            Relation::Product { result, left, right } => {
                if (l == left && r == right) || (l == right && r == left) {
                    Some(result)
                } else {
                    None
                }
            },
            Relation::Square { base, result } => {
                if l == base && r == base {
                    Some(result)
                } else {
                    None
                }
            },
            Relation::Inverse { base, result } => {
                if (l == base && r == result) || (l == result && r == base) {
                    Some(Unit::Scalar)
                } else {
                    None
                }
            },
            Relation::Conversion { .. } => None,
        };
        assert(found == product_by(relation_at(i as int), l, r));
        if found.is_some() {
            return found;
        }
        i += 1;
    }
    None
}

/// What the relationship `rel` makes of `n / d`, if it speaks of that
/// quotient.
pub open spec fn quotient_by(rel: Relation, n: Unit, d: Unit) -> Option<Unit> {
    match rel {
        Relation::Product { result, left, right } => {
            if result == n && d == right {
                Some(left)
            } else if result == n && d == left {
                Some(right)
            } else {
                None
            }
        },
        Relation::Square { base, result } => {
            if result == n && d == base {
                Some(base)
            } else {
                None
            }
        },
        Relation::Inverse { base, result } => {
            if n == Unit::Scalar && d == base {
                Some(result)
            } else if n == Unit::Scalar && d == result {
                Some(base)
            } else {
                None
            }
        },
        Relation::Conversion { .. } => None,
    }
}

/// The kind of `n / d`, or `None` where the catalogue declares no such
/// quotient.
pub fn quotient(n: Unit, d: Unit) -> (res: Option<Unit>)
    ensures
        res == quotient_of(n, d),
{
    let found = find_quotient(n, d);
    proof {
        match found {
            Some(q) => {
                let c = choose|c: Unit| divides_to(n, d, c);
                lemma_quotient_unique(n, d, q, c);
            },
            None => {},
        }
    }
    found
}

fn find_quotient(n: Unit, d: Unit) -> (res: Option<Unit>)
    ensures
        match res {
            Some(q) => divides_to(n, d, q),
            None => forall|q: Unit| !divides_to(n, d, q),
        },
{
    if d == Unit::Scalar {
        return Some(n);
    }
    if n == d {
        return Some(Unit::Scalar);
    }
    let mut i: usize = 0;
    while i < RELATION_COUNT
        invariant
            i <= RELATION_COUNT,
            d != Unit::Scalar,
            n != d,
            forall|j: int, q: Unit| 0 <= j < i ==> #[trigger] product_by(relation_at(j), q, d) != Some(n),
        decreases RELATION_COUNT - i,
    {
        let rel = relation(i);
        let found = match rel {
            Relation::Product { result, left, right } => {
                if result == n && d == right {
                    Some(left)
                } else if result == n && d == left {
                    Some(right)
                } else {
                    None
                }
            },
            Relation::Square { base, result } => {
                if result == n && d == base {
                    Some(base)
                } else {
                    None
                }
            },
            Relation::Inverse { base, result } => {
                if n == Unit::Scalar && d == base {
                    Some(result)
                } else if n == Unit::Scalar && d == result {
                    Some(base)
                } else {
                    None
                }
            },
            Relation::Conversion { .. } => None,
        };
        assert(found == quotient_by(relation_at(i as int), n, d));
        match found {
            Some(q) => {
                assert(product_by(relation_at(i as int), q, d) == Some(n));
                return found;
            },
            None => {},
        }
        i += 1;
    }
    None
}

/// The kind of the square root of a value of kind `s`, or `None` where no
/// kind squares to `s`.
pub fn square_root(s: Unit) -> (res: Option<Unit>)
    ensures
        res == square_root_of(s),
{
    if s == Unit::Scalar {
        proof {
            assert(multiplies_to(Unit::Scalar, Unit::Scalar, Unit::Scalar));
            let c = choose|c: Unit| multiplies_to(c, c, s);
            lemma_square_root_unique(s, Unit::Scalar, c);
        }
        return Some(Unit::Scalar);
    }
    let mut i: usize = 0;
    while i < RELATION_COUNT
        invariant
            i <= RELATION_COUNT,
            s != Unit::Scalar,
            forall|j: int, b: Unit| 0 <= j < i ==> #[trigger] product_by(relation_at(j), b, b) != Some(s),
        decreases RELATION_COUNT - i,
    {
        match relation(i) {
            Relation::Square { base, result } => {
                if result == s {
                    proof {
                        assert(product_by(relation_at(i as int), base, base) == Some(s));
                        assert(multiplies_to(base, base, s));
                        let c = choose|c: Unit| multiplies_to(c, c, s);
                        lemma_square_root_unique(s, base, c);
                    }
                    return Some(base);
                }
            },
            _ => {},
        }
        i += 1;
    }
    None
}

/// The kind of `a + b` and of `a - b`: `a`, where both are of one kind.
pub fn sum(a: Unit, b: Unit) -> (res: Option<Unit>)
    ensures
        res == sum_of(a, b),
{
    if a == b {
        Some(a)
    } else {
        None
    }
}

/// Whether a value converts linearly between the units `a` and `b`.
pub fn convertible(a: Unit, b: Unit) -> (res: bool)
    ensures
        res == converts(a, b),
{
    let mut i: usize = 0;
    while i < RELATION_COUNT
        invariant
            i <= RELATION_COUNT,
            forall|j: int|
                0 <= j < i ==> #[trigger] relation_at(j) != (Relation::Conversion { from: a, to: b })
                    && relation_at(j) != (Relation::Conversion { from: b, to: a }),
        decreases RELATION_COUNT - i,
    {
        match relation(i) {
            Relation::Conversion { from, to } => {
                if (from == a && to == b) || (from == b && to == a) {
                    return true;
                }
            },
            _ => {},
        }
        i += 1;
    }
    false
}

} // verus!
