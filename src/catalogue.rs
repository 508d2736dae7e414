use vstd::prelude::*;

use crate::text::same_text;

verus! {

/// Number of quantity kinds in the catalogue.
pub const UNIT_COUNT: usize = 93;

/// The kind of a physical quantity. Every value of a kind is stored in the
/// kind's canonical unit, named by its label.
#[derive(Clone, Copy, PartialEq, Eq, Structural, Debug, Hash)]
pub enum Unit {
    Scalar,
    Length,
    LengthInverse,
    Area,
    Volume,
    Liters,
    OrthogonalLength,
    Time,
    Frequency,
    FrequencySquared,
    Mass,
    MassDensity,
    PlaneAngle,
    PlaneAngleInverse,
    SolidAngle,
    Velocity,
    VelocitySquared,
    Acceleration,
    Jerk,
    Force,
    Pressure,
    Power,
    Energy,
    EnergyPerFrequency,
    ElectricPotential,
    ElectricCurrent,
    ElectricCharge,
    Capacitance,
    ElectricResistance,
    ElectricConductance,
    MagneticFlux,
    MagneticFluxDensity,
    Inductance,
    ThermodynamicTemperature,
    Temperature,
    AmountOfSubstance,
    PerAmountOfSubstance,
    LuminousIntensity,
    LuminousFlux,
    Illuminance,
    DynamicViscosity,
    MomentOfForce,
    Torque,
    AngularVelocity,
    AngularVelocitySquared,
    AngularAcceleration,
    SurfaceTension,
    HeatFluxDensity,
    HeatCapacity,
    SpecificHeatCapacity,
    SpecificEnergy,
    EnergyDensity,
    ElectricFieldStrength,
    ElectricFluxDensity,
    ElectricChargeDensity,
    Permittivity,
    Permeability,
    MolarEnergy,
    AmountOfSubstanceThermodynamicTemperature,
    MolarHeatCapacity,
    AreaSolidAngle,
    Radiance,
    MassThermodynamicTemperature,
    LengthThermodynamicTemperature,
    ThermalConductivity,
    Feet,
    Yard,
    Inch,
    Miles,
    Acres,
    SquareMiles,
    Pints,
    Quarts,
    Gallons,
    Degrees,
    DegreesPerSecond,
    DegreesPerSecondSquared,
    DegreesFahrenheit,
    DegreesRankine,
    Revolutions,
    RevolutionsPerMinute,
    NauticalMiles,
    Knots,
    FeetPerSecond,
    FeetPerSecondSquared,
    G,
    PoundsForce,
    Pounds,
    Ounces,
    PoundsPerSquareInch,
    PoundsPerSquareFoot,
    InchesMercury,
    FootPounds,
}

/// The kind at position `i` of the catalogue.
pub open spec fn unit_at(i: int) -> Unit {
    if i == 0 {
        Unit::Scalar
    } else if i == 1 {
        Unit::Length
    } else if i == 2 {
        Unit::LengthInverse
    } else if i == 3 {
        Unit::Area
    } else if i == 4 {
        Unit::Volume
    } else if i == 5 {
        Unit::Liters
    } else if i == 6 {
        Unit::OrthogonalLength
    } else if i == 7 {
        Unit::Time
    } else if i == 8 {
        Unit::Frequency
    } else if i == 9 {
        Unit::FrequencySquared
    } else if i == 10 {
        Unit::Mass
    } else if i == 11 {
        Unit::MassDensity
    } else if i == 12 {
        Unit::PlaneAngle
    } else if i == 13 {
        Unit::PlaneAngleInverse
    } else if i == 14 {
        Unit::SolidAngle
    } else if i == 15 {
        Unit::Velocity
    } else if i == 16 {
        Unit::VelocitySquared
    } else if i == 17 {
        Unit::Acceleration
    } else if i == 18 {
        Unit::Jerk
    } else if i == 19 {
        Unit::Force
    } else if i == 20 {
        Unit::Pressure
    } else if i == 21 {
        Unit::Power
    } else if i == 22 {
        Unit::Energy
    } else if i == 23 {
        Unit::EnergyPerFrequency
    } else if i == 24 {
        Unit::ElectricPotential
    } else if i == 25 {
        Unit::ElectricCurrent
    } else if i == 26 {
        Unit::ElectricCharge
    } else if i == 27 {
        Unit::Capacitance
    } else if i == 28 {
        Unit::ElectricResistance
    } else if i == 29 {
        Unit::ElectricConductance
    } else if i == 30 {
        Unit::MagneticFlux
    } else if i == 31 {
        Unit::MagneticFluxDensity
    } else if i == 32 {
        Unit::Inductance
    } else if i == 33 {
        Unit::ThermodynamicTemperature
    } else if i == 34 {
        Unit::Temperature
    } else if i == 35 {
        Unit::AmountOfSubstance
    } else if i == 36 {
        Unit::PerAmountOfSubstance
    } else if i == 37 {
        Unit::LuminousIntensity
    } else if i == 38 {
        Unit::LuminousFlux
    } else if i == 39 {
        Unit::Illuminance
    } else if i == 40 {
        Unit::DynamicViscosity
    } else if i == 41 {
        Unit::MomentOfForce
    } else if i == 42 {
        Unit::Torque
    } else if i == 43 {
        Unit::AngularVelocity
    } else if i == 44 {
        Unit::AngularVelocitySquared
    } else if i == 45 {
        Unit::AngularAcceleration
    } else if i == 46 {
        Unit::SurfaceTension
    } else if i == 47 {
        Unit::HeatFluxDensity
    } else if i == 48 {
        Unit::HeatCapacity
    } else if i == 49 {
        Unit::SpecificHeatCapacity
    } else if i == 50 {
        Unit::SpecificEnergy
    } else if i == 51 {
        Unit::EnergyDensity
    } else if i == 52 {
        Unit::ElectricFieldStrength
    } else if i == 53 {
        Unit::ElectricFluxDensity
    } else if i == 54 {
        Unit::ElectricChargeDensity
    } else if i == 55 {
        Unit::Permittivity
    } else if i == 56 {
        Unit::Permeability
    } else if i == 57 {
        Unit::MolarEnergy
    } else if i == 58 {
        Unit::AmountOfSubstanceThermodynamicTemperature
    } else if i == 59 {
        Unit::MolarHeatCapacity
    } else if i == 60 {
        Unit::AreaSolidAngle
    } else if i == 61 {
        Unit::Radiance
    } else if i == 62 {
        Unit::MassThermodynamicTemperature
    } else if i == 63 {
        Unit::LengthThermodynamicTemperature
    } else if i == 64 {
        Unit::ThermalConductivity
    } else if i == 65 {
        Unit::Feet
    } else if i == 66 {
        Unit::Yard
    } else if i == 67 {
        Unit::Inch
    } else if i == 68 {
        Unit::Miles
    } else if i == 69 {
        Unit::Acres
    } else if i == 70 {
        Unit::SquareMiles
    } else if i == 71 {
        Unit::Pints
    } else if i == 72 {
        Unit::Quarts
    } else if i == 73 {
        Unit::Gallons
    } else if i == 74 {
        Unit::Degrees
    } else if i == 75 {
        Unit::DegreesPerSecond
    } else if i == 76 {
        Unit::DegreesPerSecondSquared
    } else if i == 77 {
        Unit::DegreesFahrenheit
    } else if i == 78 {
        Unit::DegreesRankine
    } else if i == 79 {
        Unit::Revolutions
    } else if i == 80 {
        Unit::RevolutionsPerMinute
    } else if i == 81 {
        Unit::NauticalMiles
    } else if i == 82 {
        Unit::Knots
    } else if i == 83 {
        Unit::FeetPerSecond
    } else if i == 84 {
        Unit::FeetPerSecondSquared
    } else if i == 85 {
        Unit::G
    } else if i == 86 {
        Unit::PoundsForce
    } else if i == 87 {
        Unit::Pounds
    } else if i == 88 {
        Unit::Ounces
    } else if i == 89 {
        Unit::PoundsPerSquareInch
    } else if i == 90 {
        Unit::PoundsPerSquareFoot
    } else if i == 91 {
        Unit::InchesMercury
    } else {
        Unit::FootPounds
    }
}

impl Unit {
    /// Position of the kind in the catalogue.
    pub open spec fn index(self) -> int {
        match self {
            Unit::Scalar => 0,
            Unit::Length => 1,
            Unit::LengthInverse => 2,
            Unit::Area => 3,
            Unit::Volume => 4,
            Unit::Liters => 5,
            Unit::OrthogonalLength => 6,
            Unit::Time => 7,
            Unit::Frequency => 8,
            Unit::FrequencySquared => 9,
            Unit::Mass => 10,
            Unit::MassDensity => 11,
            Unit::PlaneAngle => 12,
            Unit::PlaneAngleInverse => 13,
            Unit::SolidAngle => 14,
            Unit::Velocity => 15,
            Unit::VelocitySquared => 16,
            Unit::Acceleration => 17,
            Unit::Jerk => 18,
            Unit::Force => 19,
            Unit::Pressure => 20,
            Unit::Power => 21,
            Unit::Energy => 22,
            Unit::EnergyPerFrequency => 23,
            Unit::ElectricPotential => 24,
            Unit::ElectricCurrent => 25,
            Unit::ElectricCharge => 26,
            Unit::Capacitance => 27,
            Unit::ElectricResistance => 28,
            Unit::ElectricConductance => 29,
            Unit::MagneticFlux => 30,
            Unit::MagneticFluxDensity => 31,
            Unit::Inductance => 32,
            Unit::ThermodynamicTemperature => 33,
            Unit::Temperature => 34,
            Unit::AmountOfSubstance => 35,
            Unit::PerAmountOfSubstance => 36,
            Unit::LuminousIntensity => 37,
            Unit::LuminousFlux => 38,
            Unit::Illuminance => 39,
            Unit::DynamicViscosity => 40,
            Unit::MomentOfForce => 41,
            Unit::Torque => 42,
            Unit::AngularVelocity => 43,
            Unit::AngularVelocitySquared => 44,
            Unit::AngularAcceleration => 45,
            Unit::SurfaceTension => 46,
            Unit::HeatFluxDensity => 47,
            Unit::HeatCapacity => 48,
            Unit::SpecificHeatCapacity => 49,
            Unit::SpecificEnergy => 50,
            Unit::EnergyDensity => 51,
            Unit::ElectricFieldStrength => 52,
            Unit::ElectricFluxDensity => 53,
            Unit::ElectricChargeDensity => 54,
            Unit::Permittivity => 55,
            Unit::Permeability => 56,
            Unit::MolarEnergy => 57,
            Unit::AmountOfSubstanceThermodynamicTemperature => 58,
            Unit::MolarHeatCapacity => 59,
            Unit::AreaSolidAngle => 60,
            Unit::Radiance => 61,
            Unit::MassThermodynamicTemperature => 62,
            Unit::LengthThermodynamicTemperature => 63,
            Unit::ThermalConductivity => 64,
            Unit::Feet => 65,
            Unit::Yard => 66,
            Unit::Inch => 67,
            Unit::Miles => 68,
            Unit::Acres => 69,
            Unit::SquareMiles => 70,
            Unit::Pints => 71,
            Unit::Quarts => 72,
            Unit::Gallons => 73,
            Unit::Degrees => 74,
            Unit::DegreesPerSecond => 75,
            Unit::DegreesPerSecondSquared => 76,
            Unit::DegreesFahrenheit => 77,
            Unit::DegreesRankine => 78,
            Unit::Revolutions => 79,
            Unit::RevolutionsPerMinute => 80,
            Unit::NauticalMiles => 81,
            Unit::Knots => 82,
            Unit::FeetPerSecond => 83,
            Unit::FeetPerSecondSquared => 84,
            Unit::G => 85,
            Unit::PoundsForce => 86,
            Unit::Pounds => 87,
            Unit::Ounces => 88,
            Unit::PoundsPerSquareInch => 89,
            Unit::PoundsPerSquareFoot => 90,
            Unit::InchesMercury => 91,
            Unit::FootPounds => 92,
        }
    }

    /// The kind at position `i` of the catalogue.
    pub fn at(i: usize) -> (r: Unit)
        requires
            i < UNIT_COUNT,
        ensures
            r == unit_at(i as int),
    {
        match i {
            0 => Unit::Scalar,
            1 => Unit::Length,
            2 => Unit::LengthInverse,
            3 => Unit::Area,
            4 => Unit::Volume,
            5 => Unit::Liters,
            6 => Unit::OrthogonalLength,
            7 => Unit::Time,
            8 => Unit::Frequency,
            9 => Unit::FrequencySquared,
            10 => Unit::Mass,
            11 => Unit::MassDensity,
            12 => Unit::PlaneAngle,
            13 => Unit::PlaneAngleInverse,
            14 => Unit::SolidAngle,
            15 => Unit::Velocity,
            16 => Unit::VelocitySquared,
            17 => Unit::Acceleration,
            18 => Unit::Jerk,
            19 => Unit::Force,
            20 => Unit::Pressure,
            21 => Unit::Power,
            22 => Unit::Energy,
            23 => Unit::EnergyPerFrequency,
            24 => Unit::ElectricPotential,
            25 => Unit::ElectricCurrent,
            26 => Unit::ElectricCharge,
            27 => Unit::Capacitance,
            28 => Unit::ElectricResistance,
            29 => Unit::ElectricConductance,
            30 => Unit::MagneticFlux,
            31 => Unit::MagneticFluxDensity,
            32 => Unit::Inductance,
            33 => Unit::ThermodynamicTemperature,
            34 => Unit::Temperature,
            35 => Unit::AmountOfSubstance,
            36 => Unit::PerAmountOfSubstance,
            37 => Unit::LuminousIntensity,
            38 => Unit::LuminousFlux,
            39 => Unit::Illuminance,
            40 => Unit::DynamicViscosity,
            41 => Unit::MomentOfForce,
            42 => Unit::Torque,
            43 => Unit::AngularVelocity,
            44 => Unit::AngularVelocitySquared,
            45 => Unit::AngularAcceleration,
            46 => Unit::SurfaceTension,
            47 => Unit::HeatFluxDensity,
            48 => Unit::HeatCapacity,
            49 => Unit::SpecificHeatCapacity,
            50 => Unit::SpecificEnergy,
            51 => Unit::EnergyDensity,
            52 => Unit::ElectricFieldStrength,
            53 => Unit::ElectricFluxDensity,
            54 => Unit::ElectricChargeDensity,
            55 => Unit::Permittivity,
            56 => Unit::Permeability,
            57 => Unit::MolarEnergy,
            58 => Unit::AmountOfSubstanceThermodynamicTemperature,
            59 => Unit::MolarHeatCapacity,
            60 => Unit::AreaSolidAngle,
            61 => Unit::Radiance,
            62 => Unit::MassThermodynamicTemperature,
            63 => Unit::LengthThermodynamicTemperature,
            64 => Unit::ThermalConductivity,
            65 => Unit::Feet,
            66 => Unit::Yard,
            67 => Unit::Inch,
            68 => Unit::Miles,
            69 => Unit::Acres,
            70 => Unit::SquareMiles,
            71 => Unit::Pints,
            72 => Unit::Quarts,
            73 => Unit::Gallons,
            74 => Unit::Degrees,
            75 => Unit::DegreesPerSecond,
            76 => Unit::DegreesPerSecondSquared,
            77 => Unit::DegreesFahrenheit,
            78 => Unit::DegreesRankine,
            79 => Unit::Revolutions,
            80 => Unit::RevolutionsPerMinute,
            81 => Unit::NauticalMiles,
            82 => Unit::Knots,
            83 => Unit::FeetPerSecond,
            84 => Unit::FeetPerSecondSquared,
            85 => Unit::G,
            86 => Unit::PoundsForce,
            87 => Unit::Pounds,
            88 => Unit::Ounces,
            89 => Unit::PoundsPerSquareInch,
            90 => Unit::PoundsPerSquareFoot,
            91 => Unit::InchesMercury,
            _ => Unit::FootPounds,
        }
    }

    /// The name of the kind.
    pub open spec fn spec_kind_name(self) -> Seq<char> {
        match self {
            Unit::Scalar => "Scalar"@,
            Unit::Length => "Length"@,
            Unit::LengthInverse => "LengthInverse"@,
            Unit::Area => "Area"@,
            Unit::Volume => "Volume"@,
            Unit::Liters => "Liters"@,
            Unit::OrthogonalLength => "OrthogonalLength"@,
            Unit::Time => "Time"@,
            Unit::Frequency => "Frequency"@,
            Unit::FrequencySquared => "FrequencySquared"@,
            Unit::Mass => "Mass"@,
            Unit::MassDensity => "MassDensity"@,
            Unit::PlaneAngle => "PlaneAngle"@,
            Unit::PlaneAngleInverse => "PlaneAngleInverse"@,
            Unit::SolidAngle => "SolidAngle"@,
            Unit::Velocity => "Velocity"@,
            Unit::VelocitySquared => "VelocitySquared"@,
            Unit::Acceleration => "Acceleration"@,
            Unit::Jerk => "Jerk"@,
            Unit::Force => "Force"@,
            Unit::Pressure => "Pressure"@,
            Unit::Power => "Power"@,
            Unit::Energy => "Energy"@,
            Unit::EnergyPerFrequency => "EnergyPerFrequency"@,
            Unit::ElectricPotential => "ElectricPotential"@,
            Unit::ElectricCurrent => "ElectricCurrent"@,
            Unit::ElectricCharge => "ElectricCharge"@,
            Unit::Capacitance => "Capacitance"@,
            Unit::ElectricResistance => "ElectricResistance"@,
            Unit::ElectricConductance => "ElectricConductance"@,
            Unit::MagneticFlux => "MagneticFlux"@,
            Unit::MagneticFluxDensity => "MagneticFluxDensity"@,
            Unit::Inductance => "Inductance"@,
            Unit::ThermodynamicTemperature => "ThermodynamicTemperature"@,
            Unit::Temperature => "Temperature"@,
            Unit::AmountOfSubstance => "AmountOfSubstance"@,
            Unit::PerAmountOfSubstance => "PerAmountOfSubstance"@,
            Unit::LuminousIntensity => "LuminousIntensity"@,
            Unit::LuminousFlux => "LuminousFlux"@,
            Unit::Illuminance => "Illuminance"@,
            Unit::DynamicViscosity => "DynamicViscosity"@,
            Unit::MomentOfForce => "MomentOfForce"@,
            Unit::Torque => "Torque"@,
            Unit::AngularVelocity => "AngularVelocity"@,
            Unit::AngularVelocitySquared => "AngularVelocitySquared"@,
            Unit::AngularAcceleration => "AngularAcceleration"@,
            Unit::SurfaceTension => "SurfaceTension"@,
            Unit::HeatFluxDensity => "HeatFluxDensity"@,
            Unit::HeatCapacity => "HeatCapacity"@,
            Unit::SpecificHeatCapacity => "SpecificHeatCapacity"@,
            Unit::SpecificEnergy => "SpecificEnergy"@,
            Unit::EnergyDensity => "EnergyDensity"@,
            Unit::ElectricFieldStrength => "ElectricFieldStrength"@,
            Unit::ElectricFluxDensity => "ElectricFluxDensity"@,
            Unit::ElectricChargeDensity => "ElectricChargeDensity"@,
            Unit::Permittivity => "Permittivity"@,
            Unit::Permeability => "Permeability"@,
            Unit::MolarEnergy => "MolarEnergy"@,
            Unit::AmountOfSubstanceThermodynamicTemperature => "AmountOfSubstanceThermodynamicTemperature"@,
            Unit::MolarHeatCapacity => "MolarHeatCapacity"@,
            Unit::AreaSolidAngle => "AreaSolidAngle"@,
            Unit::Radiance => "Radiance"@,
            Unit::MassThermodynamicTemperature => "MassThermodynamicTemperature"@,
            Unit::LengthThermodynamicTemperature => "LengthThermodynamicTemperature"@,
            Unit::ThermalConductivity => "ThermalConductivity"@,
            Unit::Feet => "Feet"@,
            Unit::Yard => "Yard"@,
            Unit::Inch => "Inch"@,
            Unit::Miles => "Miles"@,
            Unit::Acres => "Acres"@,
            Unit::SquareMiles => "SquareMiles"@,
            Unit::Pints => "Pints"@,
            Unit::Quarts => "Quarts"@,
            Unit::Gallons => "Gallons"@,
            Unit::Degrees => "Degrees"@,
            Unit::DegreesPerSecond => "DegreesPerSecond"@,
            Unit::DegreesPerSecondSquared => "DegreesPerSecondSquared"@,
            Unit::DegreesFahrenheit => "DegreesFahrenheit"@,
            Unit::DegreesRankine => "DegreesRankine"@,
            Unit::Revolutions => "Revolutions"@,
            Unit::RevolutionsPerMinute => "RevolutionsPerMinute"@,
            Unit::NauticalMiles => "NauticalMiles"@,
            Unit::Knots => "Knots"@,
            Unit::FeetPerSecond => "FeetPerSecond"@,
            Unit::FeetPerSecondSquared => "FeetPerSecondSquared"@,
            Unit::G => "G"@,
            Unit::PoundsForce => "PoundsForce"@,
            Unit::Pounds => "Pounds"@,
            Unit::Ounces => "Ounces"@,
            Unit::PoundsPerSquareInch => "PoundsPerSquareInch"@,
            Unit::PoundsPerSquareFoot => "PoundsPerSquareFoot"@,
            Unit::InchesMercury => "InchesMercury"@,
            Unit::FootPounds => "FootPounds"@,
        }
    }

    /// The name of the kind.
    pub fn kind_name(self) -> (r: &'static str)
        ensures
            r@ == self.spec_kind_name(),
    {
        match self {
            Unit::Scalar => "Scalar",
            Unit::Length => "Length",
            Unit::LengthInverse => "LengthInverse",
            Unit::Area => "Area",
            Unit::Volume => "Volume",
            Unit::Liters => "Liters",
            Unit::OrthogonalLength => "OrthogonalLength",
            Unit::Time => "Time",
            Unit::Frequency => "Frequency",
            Unit::FrequencySquared => "FrequencySquared",
            Unit::Mass => "Mass",
            Unit::MassDensity => "MassDensity",
            Unit::PlaneAngle => "PlaneAngle",
            Unit::PlaneAngleInverse => "PlaneAngleInverse",
            Unit::SolidAngle => "SolidAngle",
            Unit::Velocity => "Velocity",
            Unit::VelocitySquared => "VelocitySquared",
            Unit::Acceleration => "Acceleration",
            Unit::Jerk => "Jerk",
            Unit::Force => "Force",
            Unit::Pressure => "Pressure",
            Unit::Power => "Power",
            Unit::Energy => "Energy",
            Unit::EnergyPerFrequency => "EnergyPerFrequency",
            Unit::ElectricPotential => "ElectricPotential",
            Unit::ElectricCurrent => "ElectricCurrent",
            Unit::ElectricCharge => "ElectricCharge",
            Unit::Capacitance => "Capacitance",
            Unit::ElectricResistance => "ElectricResistance",
            Unit::ElectricConductance => "ElectricConductance",
            Unit::MagneticFlux => "MagneticFlux",
            Unit::MagneticFluxDensity => "MagneticFluxDensity",
            Unit::Inductance => "Inductance",
            Unit::ThermodynamicTemperature => "ThermodynamicTemperature",
            Unit::Temperature => "Temperature",
            Unit::AmountOfSubstance => "AmountOfSubstance",
            Unit::PerAmountOfSubstance => "PerAmountOfSubstance",
            Unit::LuminousIntensity => "LuminousIntensity",
            Unit::LuminousFlux => "LuminousFlux",
            Unit::Illuminance => "Illuminance",
            Unit::DynamicViscosity => "DynamicViscosity",
            Unit::MomentOfForce => "MomentOfForce",
            Unit::Torque => "Torque",
            Unit::AngularVelocity => "AngularVelocity",
            Unit::AngularVelocitySquared => "AngularVelocitySquared",
            Unit::AngularAcceleration => "AngularAcceleration",
            Unit::SurfaceTension => "SurfaceTension",
            Unit::HeatFluxDensity => "HeatFluxDensity",
            Unit::HeatCapacity => "HeatCapacity",
            Unit::SpecificHeatCapacity => "SpecificHeatCapacity",
            Unit::SpecificEnergy => "SpecificEnergy",
            Unit::EnergyDensity => "EnergyDensity",
            Unit::ElectricFieldStrength => "ElectricFieldStrength",
            Unit::ElectricFluxDensity => "ElectricFluxDensity",
            Unit::ElectricChargeDensity => "ElectricChargeDensity",
            Unit::Permittivity => "Permittivity",
            Unit::Permeability => "Permeability",
            Unit::MolarEnergy => "MolarEnergy",
            Unit::AmountOfSubstanceThermodynamicTemperature => "AmountOfSubstanceThermodynamicTemperature",
            Unit::MolarHeatCapacity => "MolarHeatCapacity",
            Unit::AreaSolidAngle => "AreaSolidAngle",
            Unit::Radiance => "Radiance",
            Unit::MassThermodynamicTemperature => "MassThermodynamicTemperature",
            Unit::LengthThermodynamicTemperature => "LengthThermodynamicTemperature",
            Unit::ThermalConductivity => "ThermalConductivity",
            Unit::Feet => "Feet",
            Unit::Yard => "Yard",
            Unit::Inch => "Inch",
            Unit::Miles => "Miles",
            Unit::Acres => "Acres",
            Unit::SquareMiles => "SquareMiles",
            Unit::Pints => "Pints",
            Unit::Quarts => "Quarts",
            Unit::Gallons => "Gallons",
            Unit::Degrees => "Degrees",
            Unit::DegreesPerSecond => "DegreesPerSecond",
            Unit::DegreesPerSecondSquared => "DegreesPerSecondSquared",
            Unit::DegreesFahrenheit => "DegreesFahrenheit",
            Unit::DegreesRankine => "DegreesRankine",
            Unit::Revolutions => "Revolutions",
            Unit::RevolutionsPerMinute => "RevolutionsPerMinute",
            Unit::NauticalMiles => "NauticalMiles",
            Unit::Knots => "Knots",
            Unit::FeetPerSecond => "FeetPerSecond",
            Unit::FeetPerSecondSquared => "FeetPerSecondSquared",
            Unit::G => "G",
            Unit::PoundsForce => "PoundsForce",
            Unit::Pounds => "Pounds",
            Unit::Ounces => "Ounces",
            Unit::PoundsPerSquareInch => "PoundsPerSquareInch",
            Unit::PoundsPerSquareFoot => "PoundsPerSquareFoot",
            Unit::InchesMercury => "InchesMercury",
            Unit::FootPounds => "FootPounds",
        }
    }

    /// The label of the canonical unit, as it is displayed and serialized.
    pub open spec fn spec_label(self) -> Seq<char> {
        match self {
            Unit::Scalar => "scalar"@,
            Unit::Length => "meters"@,
            Unit::LengthInverse => "1/meter"@,
            Unit::Area => "meters^2"@,
            Unit::Volume => "meters^3"@,
            Unit::Liters => "liters"@,
            Unit::OrthogonalLength => "meters"@,
            Unit::Time => "seconds"@,
            Unit::Frequency => "hertz"@,
            Unit::FrequencySquared => "hertz^2"@,
            Unit::Mass => "kilograms"@,
            Unit::MassDensity => "kilograms/meter^3"@,
            Unit::PlaneAngle => "radians"@,
            Unit::PlaneAngleInverse => "1/radians"@,
            Unit::SolidAngle => "steradians"@,
            Unit::Velocity => "meters/second"@,
            Unit::VelocitySquared => "(meters/second)^2"@,
            Unit::Acceleration => "meters/second^2"@,
            Unit::Jerk => "meters/second^3"@,
            Unit::Force => "newtons"@,
            Unit::Pressure => "pascals"@,
            Unit::Power => "watts"@,
            Unit::Energy => "joules"@,
            Unit::EnergyPerFrequency => "joules/hertz"@,
            Unit::ElectricPotential => "volts"@,
            Unit::ElectricCurrent => "amps"@,
            Unit::ElectricCharge => "coulombs"@,
            Unit::Capacitance => "farads"@,
            Unit::ElectricResistance => "ohms"@,
            Unit::ElectricConductance => "siemens"@,
            Unit::MagneticFlux => "webers"@,
            Unit::MagneticFluxDensity => "teslas"@,
            Unit::Inductance => "henries"@,
            Unit::ThermodynamicTemperature => "kelvin"@,
            Unit::Temperature => "celcius"@,
            Unit::AmountOfSubstance => "moles"@,
            Unit::PerAmountOfSubstance => "1/mole"@,
            Unit::LuminousIntensity => "candelas"@,
            Unit::LuminousFlux => "lumens"@,
            Unit::Illuminance => "lux"@,
            Unit::DynamicViscosity => "pascals*seconds"@,
            Unit::MomentOfForce => "newtons*meters"@,
            Unit::Torque => "newtons*meters"@,
            Unit::AngularVelocity => "radians/second"@,
            Unit::AngularVelocitySquared => "(radians/second)^2"@,
            Unit::AngularAcceleration => "radians/second^2"@,
            Unit::SurfaceTension => "newtons/meter"@,
            Unit::HeatFluxDensity => "watts/meter^2"@,
            Unit::HeatCapacity => "joules/kelvin"@,
            Unit::SpecificHeatCapacity => "joules/(kilogram*kelvin)"@,
            Unit::SpecificEnergy => "joules/kilogram"@,
            Unit::EnergyDensity => "joules/meter^3"@,
            Unit::ElectricFieldStrength => "volts/meter"@,
            Unit::ElectricFluxDensity => "coulombs/meter^2"@,
            Unit::ElectricChargeDensity => "coulombs/meter^3"@,
            Unit::Permittivity => "farads/meter"@,
            Unit::Permeability => "henries/meter"@,
            Unit::MolarEnergy => "joules/mole"@,
            Unit::AmountOfSubstanceThermodynamicTemperature => "moles*kelvin"@,
            Unit::MolarHeatCapacity => "joules/(mole*kelvin)"@,
            Unit::AreaSolidAngle => "meters^2/steradian"@,
            Unit::Radiance => "watts/(meter^2*steradian)"@,
            Unit::MassThermodynamicTemperature => "kilograms*kelvin"@,
            Unit::LengthThermodynamicTemperature => "meters*kelvin"@,
            Unit::ThermalConductivity => "watts/(meter*kelvin)"@,
            Unit::Feet => "feet"@,
            Unit::Yard => "yards"@,
            Unit::Inch => "inches"@,
            Unit::Miles => "miles"@,
            Unit::Acres => "acres"@,
            Unit::SquareMiles => "squaremiles"@,
            Unit::Pints => "pt"@,
            Unit::Quarts => "qt"@,
            Unit::Gallons => "gal"@,
            Unit::Degrees => "degrees"@,
            Unit::DegreesPerSecond => "degrees/second"@,
            Unit::DegreesPerSecondSquared => "degrees/second^2"@,
            Unit::DegreesFahrenheit => "degreesF"@,
            Unit::DegreesRankine => "degreesR"@,
            Unit::Revolutions => "revolutions"@,
            Unit::RevolutionsPerMinute => "rpm"@,
            Unit::NauticalMiles => "nauticalmiles"@,
            Unit::Knots => "knots"@,
            Unit::FeetPerSecond => "feet/second"@,
            Unit::FeetPerSecondSquared => "feet/second^2"@,
            Unit::G => "g"@,
            Unit::PoundsForce => "lbsforce"@,
            Unit::Pounds => "lbs"@,
            Unit::Ounces => "oz"@,
            Unit::PoundsPerSquareInch => "psi"@,
            Unit::PoundsPerSquareFoot => "psf"@,
            Unit::InchesMercury => "inHg"@,
            Unit::FootPounds => "ftlbs"@,
        }
    }

    /// The label of the canonical unit, as it is displayed and serialized.
    pub fn label(self) -> (r: &'static str)
        ensures
            r@ == self.spec_label(),
    {
        match self {
            Unit::Scalar => "scalar",
            Unit::Length => "meters",
            Unit::LengthInverse => "1/meter",
            Unit::Area => "meters^2",
            Unit::Volume => "meters^3",
            Unit::Liters => "liters",
            Unit::OrthogonalLength => "meters",
            Unit::Time => "seconds",
            Unit::Frequency => "hertz",
            Unit::FrequencySquared => "hertz^2",
            Unit::Mass => "kilograms",
            Unit::MassDensity => "kilograms/meter^3",
            Unit::PlaneAngle => "radians",
            Unit::PlaneAngleInverse => "1/radians",
            Unit::SolidAngle => "steradians",
            Unit::Velocity => "meters/second",
            Unit::VelocitySquared => "(meters/second)^2",
            Unit::Acceleration => "meters/second^2",
            Unit::Jerk => "meters/second^3",
            Unit::Force => "newtons",
            Unit::Pressure => "pascals",
            Unit::Power => "watts",
            Unit::Energy => "joules",
            Unit::EnergyPerFrequency => "joules/hertz",
            Unit::ElectricPotential => "volts",
            Unit::ElectricCurrent => "amps",
            Unit::ElectricCharge => "coulombs",
            Unit::Capacitance => "farads",
            Unit::ElectricResistance => "ohms",
            Unit::ElectricConductance => "siemens",
            Unit::MagneticFlux => "webers",
            Unit::MagneticFluxDensity => "teslas",
            Unit::Inductance => "henries",
            Unit::ThermodynamicTemperature => "kelvin",
            Unit::Temperature => "celcius",
            Unit::AmountOfSubstance => "moles",
            Unit::PerAmountOfSubstance => "1/mole",
            Unit::LuminousIntensity => "candelas",
            Unit::LuminousFlux => "lumens",
            Unit::Illuminance => "lux",
            Unit::DynamicViscosity => "pascals*seconds",
            Unit::MomentOfForce => "newtons*meters",
            Unit::Torque => "newtons*meters",
            Unit::AngularVelocity => "radians/second",
            Unit::AngularVelocitySquared => "(radians/second)^2",
            Unit::AngularAcceleration => "radians/second^2",
            Unit::SurfaceTension => "newtons/meter",
            Unit::HeatFluxDensity => "watts/meter^2",
            Unit::HeatCapacity => "joules/kelvin",
            Unit::SpecificHeatCapacity => "joules/(kilogram*kelvin)",
            Unit::SpecificEnergy => "joules/kilogram",
            Unit::EnergyDensity => "joules/meter^3",
            Unit::ElectricFieldStrength => "volts/meter",
            Unit::ElectricFluxDensity => "coulombs/meter^2",
            Unit::ElectricChargeDensity => "coulombs/meter^3",
            Unit::Permittivity => "farads/meter",
            Unit::Permeability => "henries/meter",
            Unit::MolarEnergy => "joules/mole",
            Unit::AmountOfSubstanceThermodynamicTemperature => "moles*kelvin",
            Unit::MolarHeatCapacity => "joules/(mole*kelvin)",
            Unit::AreaSolidAngle => "meters^2/steradian",
            Unit::Radiance => "watts/(meter^2*steradian)",
            Unit::MassThermodynamicTemperature => "kilograms*kelvin",
            Unit::LengthThermodynamicTemperature => "meters*kelvin",
            Unit::ThermalConductivity => "watts/(meter*kelvin)",
            Unit::Feet => "feet",
            Unit::Yard => "yards",
            Unit::Inch => "inches",
            Unit::Miles => "miles",
            Unit::Acres => "acres",
            Unit::SquareMiles => "squaremiles",
            Unit::Pints => "pt",
            Unit::Quarts => "qt",
            Unit::Gallons => "gal",
            Unit::Degrees => "degrees",
            Unit::DegreesPerSecond => "degrees/second",
            Unit::DegreesPerSecondSquared => "degrees/second^2",
            Unit::DegreesFahrenheit => "degreesF",
            Unit::DegreesRankine => "degreesR",
            Unit::Revolutions => "revolutions",
            Unit::RevolutionsPerMinute => "rpm",
            Unit::NauticalMiles => "nauticalmiles",
            Unit::Knots => "knots",
            Unit::FeetPerSecond => "feet/second",
            Unit::FeetPerSecondSquared => "feet/second^2",
            Unit::G => "g",
            Unit::PoundsForce => "lbsforce",
            Unit::Pounds => "lbs",
            Unit::Ounces => "oz",
            Unit::PoundsPerSquareInch => "psi",
            Unit::PoundsPerSquareFoot => "psf",
            Unit::InchesMercury => "inHg",
            Unit::FootPounds => "ftlbs",
        }
    }

    /// The unit symbol that a literal of this kind carries, empty where the kind has no literal form.
    pub open spec fn spec_literal_suffix(self) -> Seq<char> {
        match self {
            Unit::Scalar => ""@,
            Unit::Length => "m"@,
            Unit::LengthInverse => ""@,
            Unit::Area => "m2"@,
            Unit::Volume => "m3"@,
            Unit::Liters => ""@,
            Unit::OrthogonalLength => ""@,
            Unit::Time => "s"@,
            Unit::Frequency => "Hz"@,
            Unit::FrequencySquared => ""@,
            Unit::Mass => "g"@,
            Unit::MassDensity => ""@,
            Unit::PlaneAngle => "rad"@,
            Unit::PlaneAngleInverse => ""@,
            Unit::SolidAngle => "sr"@,
            Unit::Velocity => "mps"@,
            Unit::VelocitySquared => ""@,
            Unit::Acceleration => "mps2"@,
            Unit::Jerk => ""@,
            Unit::Force => "N"@,
            Unit::Pressure => "Pa"@,
            Unit::Power => "W"@,
            Unit::Energy => "J"@,
            Unit::EnergyPerFrequency => ""@,
            Unit::ElectricPotential => "V"@,
            Unit::ElectricCurrent => "A"@,
            Unit::ElectricCharge => "C"@,
            Unit::Capacitance => "F"@,
            Unit::ElectricResistance => "ohms"@,
            Unit::ElectricConductance => "S"@,
            Unit::MagneticFlux => "Wb"@,
            Unit::MagneticFluxDensity => "T"@,
            Unit::Inductance => "H"@,
            Unit::ThermodynamicTemperature => "K"@,
            Unit::Temperature => "degreeC"@,
            Unit::AmountOfSubstance => "mol"@,
            Unit::PerAmountOfSubstance => ""@,
            Unit::LuminousIntensity => "cd"@,
            Unit::LuminousFlux => "lm"@,
            Unit::Illuminance => "lx"@,
            Unit::DynamicViscosity => "Pas"@,
            Unit::MomentOfForce => "Nm"@,
            Unit::Torque => ""@,
            Unit::AngularVelocity => ""@,
            Unit::AngularVelocitySquared => ""@,
            Unit::AngularAcceleration => ""@,
            Unit::SurfaceTension => ""@,
            Unit::HeatFluxDensity => ""@,
            Unit::HeatCapacity => ""@,
            Unit::SpecificHeatCapacity => ""@,
            Unit::SpecificEnergy => ""@,
            Unit::EnergyDensity => ""@,
            Unit::ElectricFieldStrength => ""@,
            Unit::ElectricFluxDensity => ""@,
            Unit::ElectricChargeDensity => ""@,
            Unit::Permittivity => ""@,
            Unit::Permeability => ""@,
            Unit::MolarEnergy => ""@,
            Unit::AmountOfSubstanceThermodynamicTemperature => ""@,
            Unit::MolarHeatCapacity => ""@,
            Unit::AreaSolidAngle => ""@,
            Unit::Radiance => ""@,
            Unit::MassThermodynamicTemperature => ""@,
            Unit::LengthThermodynamicTemperature => ""@,
            Unit::ThermalConductivity => ""@,
            Unit::Feet => ""@,
            Unit::Yard => ""@,
            Unit::Inch => ""@,
            Unit::Miles => ""@,
            Unit::Acres => ""@,
            Unit::SquareMiles => ""@,
            Unit::Pints => ""@,
            Unit::Quarts => ""@,
            Unit::Gallons => ""@,
            Unit::Degrees => ""@,
            Unit::DegreesPerSecond => ""@,
            Unit::DegreesPerSecondSquared => ""@,
            Unit::DegreesFahrenheit => ""@,
            Unit::DegreesRankine => ""@,
            Unit::Revolutions => ""@,
            Unit::RevolutionsPerMinute => ""@,
            Unit::NauticalMiles => ""@,
            Unit::Knots => ""@,
            Unit::FeetPerSecond => ""@,
            Unit::FeetPerSecondSquared => ""@,
            Unit::G => ""@,
            Unit::PoundsForce => ""@,
            Unit::Pounds => ""@,
            Unit::Ounces => ""@,
            Unit::PoundsPerSquareInch => ""@,
            Unit::PoundsPerSquareFoot => ""@,
            Unit::InchesMercury => ""@,
            Unit::FootPounds => ""@,
        }
    }

    /// The unit symbol that a literal of this kind carries, empty where the kind has no literal form.
    pub fn literal_suffix(self) -> (r: &'static str)
        ensures
            r@ == self.spec_literal_suffix(),
    {
        match self {
            Unit::Scalar => "",
            Unit::Length => "m",
            Unit::LengthInverse => "",
            Unit::Area => "m2",
            Unit::Volume => "m3",
            Unit::Liters => "",
            Unit::OrthogonalLength => "",
            Unit::Time => "s",
            Unit::Frequency => "Hz",
            Unit::FrequencySquared => "",
            Unit::Mass => "g",
            Unit::MassDensity => "",
            Unit::PlaneAngle => "rad",
            Unit::PlaneAngleInverse => "",
            Unit::SolidAngle => "sr",
            Unit::Velocity => "mps",
            Unit::VelocitySquared => "",
            Unit::Acceleration => "mps2",
            Unit::Jerk => "",
            Unit::Force => "N",
            Unit::Pressure => "Pa",
            Unit::Power => "W",
            Unit::Energy => "J",
            Unit::EnergyPerFrequency => "",
            Unit::ElectricPotential => "V",
            Unit::ElectricCurrent => "A",
            Unit::ElectricCharge => "C",
            Unit::Capacitance => "F",
            Unit::ElectricResistance => "ohms",
            Unit::ElectricConductance => "S",
            Unit::MagneticFlux => "Wb",
            Unit::MagneticFluxDensity => "T",
            Unit::Inductance => "H",
            Unit::ThermodynamicTemperature => "K",
            Unit::Temperature => "degreeC",
            Unit::AmountOfSubstance => "mol",
            Unit::PerAmountOfSubstance => "",
            Unit::LuminousIntensity => "cd",
            Unit::LuminousFlux => "lm",
            Unit::Illuminance => "lx",
            Unit::DynamicViscosity => "Pas",
            Unit::MomentOfForce => "Nm",
            Unit::Torque => "",
            Unit::AngularVelocity => "",
            Unit::AngularVelocitySquared => "",
            Unit::AngularAcceleration => "",
            Unit::SurfaceTension => "",
            Unit::HeatFluxDensity => "",
            Unit::HeatCapacity => "",
            Unit::SpecificHeatCapacity => "",
            Unit::SpecificEnergy => "",
            Unit::EnergyDensity => "",
            Unit::ElectricFieldStrength => "",
            Unit::ElectricFluxDensity => "",
            Unit::ElectricChargeDensity => "",
            Unit::Permittivity => "",
            Unit::Permeability => "",
            Unit::MolarEnergy => "",
            Unit::AmountOfSubstanceThermodynamicTemperature => "",
            Unit::MolarHeatCapacity => "",
            Unit::AreaSolidAngle => "",
            Unit::Radiance => "",
            Unit::MassThermodynamicTemperature => "",
            Unit::LengthThermodynamicTemperature => "",
            Unit::ThermalConductivity => "",
            Unit::Feet => "",
            Unit::Yard => "",
            Unit::Inch => "",
            Unit::Miles => "",
            Unit::Acres => "",
            Unit::SquareMiles => "",
            Unit::Pints => "",
            Unit::Quarts => "",
            Unit::Gallons => "",
            Unit::Degrees => "",
            Unit::DegreesPerSecond => "",
            Unit::DegreesPerSecondSquared => "",
            Unit::DegreesFahrenheit => "",
            Unit::DegreesRankine => "",
            Unit::Revolutions => "",
            Unit::RevolutionsPerMinute => "",
            Unit::NauticalMiles => "",
            Unit::Knots => "",
            Unit::FeetPerSecond => "",
            Unit::FeetPerSecondSquared => "",
            Unit::G => "",
            Unit::PoundsForce => "",
            Unit::Pounds => "",
            Unit::Ounces => "",
            Unit::PoundsPerSquareInch => "",
            Unit::PoundsPerSquareFoot => "",
            Unit::InchesMercury => "",
            Unit::FootPounds => "",
        }
    }

    /// Power of ten that turns a literal's base unit into the canonical unit
    /// (a literal in grams is stored in kilograms).
    pub open spec fn spec_literal_exponent(self) -> int {
        if self == Unit::Mass {
            -3
        } else {
            0
        }
    }

    /// Power of ten that turns a literal's base unit into the canonical unit.
    pub fn literal_exponent(self) -> (r: i32)
        ensures
            r == self.spec_literal_exponent(),
    {
        if self == Unit::Mass {
            -3
        } else {
            0
        }
    }
}

/// Every kind stands at its own position of the catalogue.
pub proof fn lemma_unit_at_index(u: Unit)
    ensures
        0 <= u.index() < UNIT_COUNT,
        unit_at(u.index()) == u,
{
}

/// Looks a kind up by its name: the first kind of the catalogue whose name is
/// `name`, or `None` where no kind has that name.
pub fn find_unit(name: &str) -> (r: Option<Unit>)
    ensures
        match r {
            Some(u) => u.spec_kind_name() == name@ && forall|v: Unit|
                v.index() < u.index() ==> v.spec_kind_name() != name@,
            None => forall|v: Unit| v.spec_kind_name() != name@,
        },
{
    let mut i: usize = 0;
    while i < UNIT_COUNT
        invariant
            i <= UNIT_COUNT,
            forall|j: int| 0 <= j < i ==> (#[trigger] unit_at(j)).spec_kind_name() != name@,
        decreases UNIT_COUNT - i,
    {
        let u = Unit::at(i);
        if same_text(u.kind_name(), name) {
            proof {
                assert forall|v: Unit| v.index() < u.index() implies v.spec_kind_name() != name@ by {
                    lemma_unit_at_index(v);
                    lemma_unit_at_index(u);
                }
            }
            return Some(u);
        }
        i += 1;
    }
    proof {
        assert forall|v: Unit| v.spec_kind_name() != name@ by {
            lemma_unit_at_index(v);
        }
    }
    None
}

/// How a decibel value scales the logarithm of a ratio: ten for power-like
/// quantities, twenty for signal-like ones.
#[derive(Clone, Copy, PartialEq, Eq, Structural, Debug, Hash)]
pub enum DecibelType {
    Power,
    Signal,
}

impl DecibelType {
    /// The factor of the logarithm.
    pub open spec fn spec_factor(self) -> int {
        match self {
            DecibelType::Power => 10,
            DecibelType::Signal => 20,
        }
    }

    /// The factor of the logarithm.
    pub fn factor(self) -> (r: u32)
        ensures
            r == self.spec_factor(),
    {
        match self {
            DecibelType::Power => 10,
            DecibelType::Signal => 20,
        }
    }
}

} // verus!
