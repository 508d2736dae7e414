use vstd::prelude::*;

use crate::catalogue::Unit;
use crate::decimal::{decimal_of_text, parse_decimal, Decimal};
use crate::text::chars_of;

verus! {

/// Why a serialized value could not be read.
#[derive(Clone, Copy, PartialEq, Eq, Structural, Debug)]
pub enum SerialFault {
    /// The text holds no `_` between value and label.
    MissingSeparator,
    /// The label after the last `_` is not the expected one.
    LabelMismatch,
    /// The text before the last `_` is not a decimal that fits.
    InvalidNumber,
}

/// A serialized value that could not be read: the reason, the text, and the
/// label that was expected.
#[derive(Debug)]
pub struct SerialError {
    pub fault: SerialFault,
    pub input: String,
    pub expected: String,
}

/// Position of the last `c` in `s`, or -1 where there is none.
pub open spec fn last_of(s: Seq<char>, c: char) -> int
    decreases s.len(),
{
    if s.len() == 0 {
        -1
    } else if s.last() == c {
        s.len() - 1
    } else {
        last_of(s.drop_last(), c)
    }
}

proof fn lemma_last_of(s: Seq<char>, c: char)
    ensures
        -1 <= last_of(s, c) < s.len(),
        last_of(s, c) >= 0 ==> s[last_of(s, c)] == c,
        forall|j: int| last_of(s, c) < j < s.len() ==> s[j] != c,
    decreases s.len(),
{
    if s.len() > 0 && s.last() != c {
        lemma_last_of(s.drop_last(), c);
        assert forall|j: int| last_of(s, c) < j < s.len() implies s[j] != c by {
            if j < s.len() - 1 {
                assert(s[j] == s.drop_last()[j]);
            }
        }
    }
}

/// The serialized form of a value of kind `u` whose number is written
/// `number`: the number, `_`, and the kind's label.
pub open spec fn serialized(number: Seq<char>, u: Unit) -> Seq<char> {
    number + seq!['_'] + u.spec_label()
}

/// The number text of a serialized value of kind `u`: what stands before the
/// last `_`, where what follows it is `u`'s label.
pub open spec fn number_of_serialized(s: Seq<char>, u: Unit) -> Result<Seq<char>, SerialFault> {
    let k = last_of(s, '_');
    if k < 0 {
        Err(SerialFault::MissingSeparator)
    } else if s.skip(k + 1) != u.spec_label() {
        Err(SerialFault::LabelMismatch)
    } else {
        Ok(s.take(k))
    }
}

/// Writes a value of kind `u` whose number is written `number`.
pub fn serialize(number: &str, u: Unit) -> (r: String)
    ensures
        r@ == serialized(number@, u),
{
    let mut r = String::from_str(number);
    let sep = "_";
    proof {
        reveal_strlit("_");
    }
    r.append(sep);
    r.append(u.label());
    r
}

/// How a value of kind `u` whose number is written `number` is displayed:
/// the number, a space, and the kind's label.
pub fn display(number: &str, u: Unit) -> (r: String)
    ensures
        r@ == number@ + seq![' '] + u.spec_label(),
{
    let mut r = String::from_str(number);
    let space = " ";
    proof {
        reveal_strlit(" ");
    }
    r.append(space);
    r.append(u.label());
    r
}

fn error(fault: SerialFault, text: &str, u: Unit) -> (e: SerialError)
    ensures
        e.fault == fault,
        e.input@ == text@,
        e.expected@ == u.spec_label(),
{
    SerialError { fault, input: String::from_str(text), expected: String::from_str(u.label()) }
}

/// Reads the number text of a serialized value of kind `u`.
pub fn deserialize_text(text: &str, u: Unit) -> (r: Result<String, SerialError>)
    ensures
        match r {
            Ok(n) => number_of_serialized(text@, u) == Ok::<Seq<char>, SerialFault>(n@),
            Err(e) => number_of_serialized(text@, u) == Err::<Seq<char>, SerialFault>(e.fault)
                && e.input@ == text@ && e.expected@ == u.spec_label(),
        },
{
    let s = chars_of(text);
    proof {
        lemma_last_of(s@, '_');
    }
    let mut k: usize = s.len();
    while k > 0 && s[k - 1] != '_'
        invariant
            k <= s@.len(),
            last_of(s@, '_') < k,
            forall|j: int| k <= j < s@.len() ==> s@[j] != '_',
            -1 <= last_of(s@, '_') < s@.len(),
            last_of(s@, '_') >= 0 ==> s@[last_of(s@, '_')] == '_',
        decreases k,
    {
        k -= 1;
    }
    if k == 0 {
        return Err(error(SerialFault::MissingSeparator, text, u));
    }
    assert(s@[k - 1] == '_');
    assert(last_of(s@, '_') == k - 1);
    let label = chars_of(u.label());
    let n = s.len();
    if n - k != label.len() {
        assert(s@.skip(k as int).len() != label@.len());
        return Err(error(SerialFault::LabelMismatch, text, u));
    }
    let mut i: usize = 0;
    while i < label.len()
        invariant
            n - k == label@.len(),
            n == s@.len(),
            1 <= k <= n,
            forall|j: int| 0 <= j < i ==> s@[k + j] == label@[j],
            i <= label@.len(),
            s@ == text@,
            label@ == u.spec_label(),
            last_of(s@, '_') == k - 1,
        decreases label@.len() - i,
    {
        if s[k + i] != label[i] {
            proof {
                assert(s@.skip(k as int)[i as int] == s@[k + i]);
                if s@.skip(k as int) == label@ {
                    assert(s@.skip(k as int)[i as int] == label@[i as int]);
                }
            }
            return Err(error(SerialFault::LabelMismatch, text, u));
        }
        i += 1;
    }
    assert(s@.skip(k as int) =~= label@);
    let number = text.substring_char(0, k - 1);
    assert(number@ =~= s@.take(k - 1));
    Ok(String::from_str(number))
}

/// No label holds a `_`, so the last `_` of a serialized value is the one
/// before its label.
pub proof fn lemma_label_has_no_separator(u: Unit)
    ensures
        forall|j: int| 0 <= j < u.spec_label().len() ==> u.spec_label()[j] != '_',
{
    match u {
        Unit::Scalar => {
            reveal_strlit("scalar");
        },
        Unit::Length => {
            reveal_strlit("meters");
        },
        Unit::LengthInverse => {
            reveal_strlit("1/meter");
        },
        Unit::Area => {
            reveal_strlit("meters^2");
        },
        Unit::Volume => {
            reveal_strlit("meters^3");
        },
        Unit::Liters => {
            reveal_strlit("liters");
        },
        Unit::OrthogonalLength => {
            reveal_strlit("meters");
        },
        Unit::Time => {
            reveal_strlit("seconds");
        },
        Unit::Frequency => {
            reveal_strlit("hertz");
        },
        Unit::FrequencySquared => {
            reveal_strlit("hertz^2");
        },
        Unit::Mass => {
            reveal_strlit("kilograms");
        },
        Unit::MassDensity => {
            reveal_strlit("kilograms/meter^3");
        },
        Unit::PlaneAngle => {
            reveal_strlit("radians");
        },
        Unit::PlaneAngleInverse => {
            reveal_strlit("1/radians");
        },
        Unit::SolidAngle => {
            reveal_strlit("steradians");
        },
        Unit::Velocity => {
            reveal_strlit("meters/second");
        },
        Unit::VelocitySquared => {
            reveal_strlit("(meters/second)^2");
        },
        Unit::Acceleration => {
            reveal_strlit("meters/second^2");
        },
        Unit::Jerk => {
            reveal_strlit("meters/second^3");
        },
        Unit::Force => {
            reveal_strlit("newtons");
        },
        Unit::Pressure => {
            reveal_strlit("pascals");
        },
        Unit::Power => {
            reveal_strlit("watts");
        },
        Unit::Energy => {
            reveal_strlit("joules");
        },
        Unit::EnergyPerFrequency => {
            reveal_strlit("joules/hertz");
        },
        Unit::ElectricPotential => {
            reveal_strlit("volts");
        },
        Unit::ElectricCurrent => {
            reveal_strlit("amps");
        },
        Unit::ElectricCharge => {
            reveal_strlit("coulombs");
        },
        Unit::Capacitance => {
            reveal_strlit("farads");
        },
        Unit::ElectricResistance => {
            reveal_strlit("ohms");
        },
        Unit::ElectricConductance => {
            reveal_strlit("siemens");
        },
        Unit::MagneticFlux => {
            reveal_strlit("webers");
        },
        Unit::MagneticFluxDensity => {
            reveal_strlit("teslas");
        },
        Unit::Inductance => {
            reveal_strlit("henries");
        },
        Unit::ThermodynamicTemperature => {
            reveal_strlit("kelvin");
        },
        Unit::Temperature => {
            reveal_strlit("celcius");
        },
        Unit::AmountOfSubstance => {
            reveal_strlit("moles");
        },
        Unit::PerAmountOfSubstance => {
            reveal_strlit("1/mole");
        },
        Unit::LuminousIntensity => {
            reveal_strlit("candelas");
        },
        Unit::LuminousFlux => {
            reveal_strlit("lumens");
        },
        Unit::Illuminance => {
            reveal_strlit("lux");
        },
        Unit::DynamicViscosity => {
            reveal_strlit("pascals*seconds");
        },
        Unit::MomentOfForce => {
            reveal_strlit("newtons*meters");
        },
        Unit::Torque => {
            reveal_strlit("newtons*meters");
        },
        Unit::AngularVelocity => {
            reveal_strlit("radians/second");
        },
        Unit::AngularVelocitySquared => {
            reveal_strlit("(radians/second)^2");
        },
        Unit::AngularAcceleration => {
            reveal_strlit("radians/second^2");
        },
        Unit::SurfaceTension => {
            reveal_strlit("newtons/meter");
        },
        Unit::HeatFluxDensity => {
            reveal_strlit("watts/meter^2");
        },
        Unit::HeatCapacity => {
            reveal_strlit("joules/kelvin");
        },
        Unit::SpecificHeatCapacity => {
            reveal_strlit("joules/(kilogram*kelvin)");
        },
        Unit::SpecificEnergy => {
            reveal_strlit("joules/kilogram");
        },
        Unit::EnergyDensity => {
            reveal_strlit("joules/meter^3");
        },
        Unit::ElectricFieldStrength => {
            reveal_strlit("volts/meter");
        },
        Unit::ElectricFluxDensity => {
            reveal_strlit("coulombs/meter^2");
        },
        Unit::ElectricChargeDensity => {
            reveal_strlit("coulombs/meter^3");
        },
        Unit::Permittivity => {
            reveal_strlit("farads/meter");
        },
        Unit::Permeability => {
            reveal_strlit("henries/meter");
        },
        Unit::MolarEnergy => {
            reveal_strlit("joules/mole");
        },
        Unit::AmountOfSubstanceThermodynamicTemperature => {
            reveal_strlit("moles*kelvin");
        },
        Unit::MolarHeatCapacity => {
            reveal_strlit("joules/(mole*kelvin)");
        },
        Unit::AreaSolidAngle => {
            reveal_strlit("meters^2/steradian");
        },
        Unit::Radiance => {
            reveal_strlit("watts/(meter^2*steradian)");
        },
        Unit::MassThermodynamicTemperature => {
            reveal_strlit("kilograms*kelvin");
        },
        Unit::LengthThermodynamicTemperature => {
            reveal_strlit("meters*kelvin");
        },
        Unit::ThermalConductivity => {
            reveal_strlit("watts/(meter*kelvin)");
        },
        Unit::Feet => {
            reveal_strlit("feet");
        },
        Unit::Yard => {
            reveal_strlit("yards");
        },
        Unit::Inch => {
            reveal_strlit("inches");
        },
        Unit::Miles => {
            reveal_strlit("miles");
        },
        Unit::Acres => {
            reveal_strlit("acres");
        },
        Unit::SquareMiles => {
            reveal_strlit("squaremiles");
        },
        Unit::Pints => {
            reveal_strlit("pt");
        },
        Unit::Quarts => {
            reveal_strlit("qt");
        },
        Unit::Gallons => {
            reveal_strlit("gal");
        },
        Unit::Degrees => {
            reveal_strlit("degrees");
        },
        Unit::DegreesPerSecond => {
            reveal_strlit("degrees/second");
        },
        Unit::DegreesPerSecondSquared => {
            reveal_strlit("degrees/second^2");
        },
        Unit::DegreesFahrenheit => {
            reveal_strlit("degreesF");
        },
        Unit::DegreesRankine => {
            reveal_strlit("degreesR");
        },
        Unit::Revolutions => {
            reveal_strlit("revolutions");
        },
        Unit::RevolutionsPerMinute => {
            reveal_strlit("rpm");
        },
        Unit::NauticalMiles => {
            reveal_strlit("nauticalmiles");
        },
        Unit::Knots => {
            reveal_strlit("knots");
        },
        Unit::FeetPerSecond => {
            reveal_strlit("feet/second");
        },
        Unit::FeetPerSecondSquared => {
            reveal_strlit("feet/second^2");
        },
        Unit::G => {
            reveal_strlit("g");
        },
        Unit::PoundsForce => {
            reveal_strlit("lbsforce");
        },
        Unit::Pounds => {
            reveal_strlit("lbs");
        },
        Unit::Ounces => {
            reveal_strlit("oz");
        },
        Unit::PoundsPerSquareInch => {
            reveal_strlit("psi");
        },
        Unit::PoundsPerSquareFoot => {
            reveal_strlit("psf");
        },
        Unit::InchesMercury => {
            reveal_strlit("inHg");
        },
        Unit::FootPounds => {
            reveal_strlit("ftlbs");
        },
    }
}

/// Reading back a serialized value gives the number text it was written with.
pub proof fn law_serial_round_trip(number: Seq<char>, u: Unit)
    ensures
        number_of_serialized(serialized(number, u), u) == Ok::<Seq<char>, SerialFault>(number),
{
    let s = serialized(number, u);
    let k = number.len() as int;
    lemma_label_has_no_separator(u);
    lemma_last_of(s, '_');
    assert(s[k] == '_');
    assert forall|j: int| k < j < s.len() implies s[j] != '_' by {
        assert(s[j] == u.spec_label()[j - k - 1]);
    }
    assert(last_of(s, '_') == k);
    assert(s.skip(k + 1) =~= u.spec_label());
    assert(s.take(k) =~= number);
}

/// What a serialized value of kind `u` holds, read as a decimal.
pub open spec fn decimal_of_serialized(s: Seq<char>, u: Unit) -> Result<Decimal, SerialFault> {
    match number_of_serialized(s, u) {
        Err(f) => Err(f),
        Ok(n) => match decimal_of_text(n) {
            Some(d) => Ok(d),
            None => Err(SerialFault::InvalidNumber),
        },
    }
}

/// Reads a serialized value of kind `u`, such as `10_volts`, as a decimal.
pub fn deserialize(text: &str, u: Unit) -> (r: Result<Decimal, SerialError>)
    ensures
        match r {
            Ok(d) => decimal_of_serialized(text@, u) == Ok::<Decimal, SerialFault>(d),
            Err(e) => decimal_of_serialized(text@, u) == Err::<Decimal, SerialFault>(e.fault)
                && e.input@ == text@ && e.expected@ == u.spec_label(),
        },
{
    match deserialize_text(text, u) {
        Err(e) => Err(e),
        Ok(n) => {
            let cs = chars_of(n.as_str());
            match parse_decimal(&cs) {
                Some(d) => Ok(d),
                None => Err(error(SerialFault::InvalidNumber, text, u)),
            }
        },
    }
}

/// Reading back a serialized value gives the decimal its number text holds.
pub proof fn law_serial_decimal_round_trip(number: Seq<char>, u: Unit)
    ensures
        decimal_of_serialized(serialized(number, u), u) == (match decimal_of_text(number) {
            Some(d) => Ok::<Decimal, SerialFault>(d),
            None => Err(SerialFault::InvalidNumber),
        }),
{
    law_serial_round_trip(number, u);
}

} // verus!
