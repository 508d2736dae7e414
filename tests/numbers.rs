use sci_units::{
    approx_eq, chars_of, check_expression, tokenize, ExpressionError, Token, deserialize, deserialize_text, expression_kind, parse_decimal,
    parse_literal, read_expression, serialize, Decimal, KindError, LiteralFault, Op, SerialFault,
    Source, Unit, SIGNIFICANT_FIGURES,
};

fn lit(text: &str) -> Decimal {
    parse_literal(text).unwrap().value
}

fn dec(text: &str) -> Decimal {
    parse_decimal(&chars_of(text)).unwrap()
}

#[test]
fn literal_scaling() {
    let kg = parse_literal("1kg").unwrap();
    assert_eq!(kg.unit, Unit::Mass);
    assert_eq!(kg.value, Decimal { negative: false, digits: 1, exponent: 0 });
    let g = parse_literal("1000g").unwrap();
    assert_eq!(g.unit, Unit::Mass);
    assert_eq!(g.value, Decimal { negative: false, digits: 1000, exponent: -3 });
    assert!(approx_eq(kg.value, g.value, SIGNIFICANT_FIGURES));

    let tw = parse_literal("1TW").unwrap();
    assert_eq!(tw.unit, Unit::Power);
    assert!(approx_eq(tw.value, lit("1000000000000W"), SIGNIFICANT_FIGURES));
    assert!(approx_eq(tw.value, dec("1e12"), SIGNIFICANT_FIGURES));

    let fw = parse_literal("1fW").unwrap();
    assert_eq!(fw.value, Decimal { negative: false, digits: 1, exponent: -15 });
    assert!(approx_eq(fw.value, dec("1e-15"), SIGNIFICANT_FIGURES));
    assert!(!approx_eq(fw.value, dec("1e-14"), SIGNIFICANT_FIGURES));
}

#[test]
fn literal_kinds_and_prefixes() {
    assert_eq!(parse_literal("10A").unwrap().unit, Unit::ElectricCurrent);
    assert_eq!(parse_literal("100ohms").unwrap().unit, Unit::ElectricResistance);
    assert_eq!(parse_literal("3m2").unwrap().unit, Unit::Area);
    assert_eq!(parse_literal("3mm2").unwrap().value, Decimal { negative: false, digits: 3, exponent: -3 });
    assert_eq!(parse_literal("5Hz").unwrap().unit, Unit::Frequency);
    assert_eq!(parse_literal("2mol").unwrap().unit, Unit::AmountOfSubstance);
    assert_eq!(parse_literal("2mmol").unwrap().value.exponent, -3);
    assert_eq!(parse_literal("7T").unwrap().unit, Unit::MagneticFluxDensity);
    assert_eq!(parse_literal("7TT").unwrap().value.exponent, 12);
    assert_eq!(parse_literal("20degreeC").unwrap().unit, Unit::Temperature);
    let mg = parse_literal("5mg").unwrap();
    assert_eq!(mg.unit, Unit::Mass);
    assert_eq!(mg.value, Decimal { negative: false, digits: 5, exponent: -6 });
    let ms = parse_literal("2.5ms").unwrap();
    assert_eq!(ms.unit, Unit::Time);
    assert_eq!(ms.value, Decimal { negative: false, digits: 25, exponent: -4 });
    let bare = parse_literal("42").unwrap();
    assert_eq!(bare.unit, Unit::Scalar);
    assert_eq!(bare.value, Decimal { negative: false, digits: 42, exponent: 0 });
}

#[test]
fn literal_errors() {
    let e = parse_literal("10furlongs").unwrap_err();
    assert_eq!(e.fault, LiteralFault::UnknownSuffix);
    assert_eq!(e.token, "10furlongs");
    assert_eq!(parse_literal("10xW").unwrap_err().fault, LiteralFault::UnknownSuffix);
    assert_eq!(parse_literal("1.2.3m").unwrap_err().fault, LiteralFault::MalformedNumber);
    assert_eq!(parse_literal("kg").unwrap_err().fault, LiteralFault::MalformedNumber);
    assert_eq!(parse_literal("99999999999999999999m").unwrap_err().fault, LiteralFault::MalformedNumber);
}

#[test]
fn decimal_texts() {
    assert_eq!(dec("-12.5e-3"), Decimal { negative: true, digits: 125, exponent: -4 });
    assert_eq!(dec("10"), Decimal { negative: false, digits: 10, exponent: 0 });
    assert_eq!(dec(".5"), Decimal { negative: false, digits: 5, exponent: -1 });
    assert_eq!(dec("5."), Decimal { negative: false, digits: 5, exponent: 0 });
    assert_eq!(dec("6.561679790026246e0"), Decimal { negative: false, digits: 6561679790026246, exponent: -15 });
    assert_eq!(parse_decimal(&chars_of("")), None);
    assert_eq!(parse_decimal(&chars_of("-")), None);
    assert_eq!(parse_decimal(&chars_of("1e")), None);
    assert_eq!(parse_decimal(&chars_of("1x")), None);
    assert_eq!(parse_decimal(&chars_of("NaN")), None);
}

#[test]
fn significant_figure_boundary() {
    let f = 6;
    assert!(approx_eq(lit("50W"), lit("50.000011W"), f));
    assert!(!approx_eq(lit("50W"), lit("50.000111W"), f));
    assert!(approx_eq(lit("500mV"), lit("500.000mV"), f));
    assert!(!approx_eq(lit("500mV"), lit("500.001mV"), f));
    assert!(approx_eq(lit("5mV"), lit("5.000001mV"), f));
    assert!(!approx_eq(lit("5mV"), lit("5.00001mV"), f));
    assert!(approx_eq(lit("50W"), lit("50000.011mW"), f));
    assert!(!approx_eq(lit("50W"), lit("50000.111mW"), f));
}

#[test]
fn approximate_equality_edges() {
    let zero = Decimal { negative: false, digits: 0, exponent: 0 };
    assert!(approx_eq(zero, Decimal { negative: true, digits: 0, exponent: 7 }, 12));
    assert!(!approx_eq(zero, dec("1e-30"), 12));
    assert!(!approx_eq(dec("5"), dec("-5"), 12));
    assert!(approx_eq(dec("-5"), dec("-5.0000000000001"), 12));
    assert!(!approx_eq(dec("9.9"), dec("10.1"), 12));
    assert!(approx_eq(dec("18446744073709551615"), dec("1.8446744073709551615e19"), 12));
    assert!(approx_eq(dec("6.561679790026246"), dec("6.5616797900262467"), 12));
    // rounding half away from zero: half a unit in the last figure is unequal
    assert!(!approx_eq(dec("1.5"), dec("1"), 1));
    assert!(approx_eq(dec("1.49"), dec("1"), 1));
}

#[test]
fn lib_serde_test() {
    let volts = serialize("10", Unit::ElectricPotential);
    assert_eq!(volts, "10_volts");
    let current = serialize("100", Unit::ElectricCurrent);
    assert_eq!(current, "100_amps");
    let charge = serialize("1000", Unit::ElectricCharge);
    assert_eq!(charge, "1000_coulombs");

    let v = deserialize(&volts, Unit::ElectricPotential).unwrap();
    assert!(approx_eq(v, dec("10"), SIGNIFICANT_FIGURES));
    let c = deserialize(&current, Unit::ElectricCurrent).unwrap();
    assert!(approx_eq(c, dec("100"), SIGNIFICANT_FIGURES));
    let q = deserialize(&charge, Unit::ElectricCharge).unwrap();
    assert!(approx_eq(q, dec("1000"), SIGNIFICANT_FIGURES));
}

#[test]
fn serialization_errors() {
    let e = deserialize("10_meters", Unit::ElectricPotential).unwrap_err();
    assert_eq!(e.fault, SerialFault::LabelMismatch);
    assert_eq!(e.input, "10_meters");
    assert_eq!(e.expected, "volts");
    assert_eq!(deserialize("10volts", Unit::ElectricPotential).unwrap_err().fault, SerialFault::MissingSeparator);
    assert_eq!(deserialize("ten_volts", Unit::ElectricPotential).unwrap_err().fault, SerialFault::InvalidNumber);
    assert_eq!(deserialize("10_volts_", Unit::ElectricPotential).unwrap_err().fault, SerialFault::LabelMismatch);
    assert_eq!(deserialize_text("1_2_volts", Unit::ElectricPotential).unwrap(), "1_2");
    assert_eq!(deserialize_text("-2.5_meters^2", Unit::Area).unwrap(), "-2.5");
    assert_eq!(deserialize("-2.5_meters^2", Unit::Area).unwrap(), Decimal { negative: true, digits: 25, exponent: -1 });
}

#[test]
fn serialization_round_trip() {
    let text = serialize("6.561679790026246", Unit::Feet);
    assert_eq!(text, "6.561679790026246_feet");
    assert_eq!(deserialize_text(&text, Unit::Feet).unwrap(), "6.561679790026246");
}

fn token(t: &str) -> Box<Source> {
    Box::new(Source::Token(t.to_string()))
}

#[test]
fn expression_kinds() {
    let ohms_law = Source::Binary(Op::Mul, token("10A"), token("100ohms"));
    let e = read_expression(&ohms_law).unwrap();
    assert_eq!(expression_kind(&e), Ok(Unit::ElectricPotential));

    let power = Source::Binary(Op::Mul, Box::new(ohms_law), token("2mA"));
    assert_eq!(expression_kind(&read_expression(&power).unwrap()), Ok(Unit::Power));

    let speed = Source::Binary(
        Op::Div,
        Box::new(Source::Binary(Op::Add, token("3km"), token("500m"))),
        token("10s"),
    );
    assert_eq!(expression_kind(&read_expression(&speed).unwrap()), Ok(Unit::Velocity));

    let scaled = Source::Binary(Op::Mul, token("3"), token("2kg"));
    assert_eq!(expression_kind(&read_expression(&scaled).unwrap()), Ok(Unit::Mass));
}

#[test]
fn expression_errors() {
    let mixed = Source::Binary(Op::Add, token("10A"), token("5m"));
    let e = read_expression(&mixed).unwrap();
    assert_eq!(
        expression_kind(&e),
        Err(KindError { op: Op::Add, left: Unit::ElectricCurrent, right: Unit::Length })
    );
    let unknown = Source::Binary(Op::Mul, token("10A"), token("5parsecs"));
    let err = read_expression(&unknown).unwrap_err();
    assert_eq!(err.fault, LiteralFault::UnknownSuffix);
    assert_eq!(err.token, "5parsecs");
}

#[test]
fn expression_texts() {
    let (_, kind) = check_expression("10A * 100ohms").unwrap();
    assert_eq!(kind, Unit::ElectricPotential);
    let (_, kind) = check_expression("10A * 100ohms * 2mA").unwrap();
    assert_eq!(kind, Unit::Power);
    let (_, kind) = check_expression("(3km + 500m) / 10s").unwrap();
    assert_eq!(kind, Unit::Velocity);
    let (_, kind) = check_expression("2m * 3m + 1m2").unwrap();
    assert_eq!(kind, Unit::Area);
    let (_, kind) = check_expression("(1m + 2m) * 3m").unwrap();
    assert_eq!(kind, Unit::Area);
    let (_, kind) = check_expression("1 / 5Hz").unwrap();
    assert_eq!(kind, Unit::Time);
    let (expr, kind) = check_expression(" 1kg ").unwrap();
    assert_eq!(kind, Unit::Mass);
    assert_eq!(expression_kind(&expr), Ok(Unit::Mass));
}

#[test]
fn expression_text_errors() {
    match check_expression("1m + 2m * 3m") {
        Err(ExpressionError::Kind(k)) => {
            assert_eq!(k, KindError { op: Op::Add, left: Unit::Length, right: Unit::Area })
        }
        other => panic!("unexpected {:?}", other),
    }
    match check_expression("10A * 5parsecs") {
        Err(ExpressionError::Literal(e)) => {
            assert_eq!(e.fault, LiteralFault::UnknownSuffix);
            assert_eq!(e.token, "5parsecs");
        }
        other => panic!("unexpected {:?}", other),
    }
    for text in ["10A *", "(1m", "1m 2m", "", "* 2m", "1m)"] {
        assert!(matches!(check_expression(text), Err(ExpressionError::Syntax(_))), "{}", text);
    }
}

#[test]
fn tokens_of_a_text() {
    let toks = tokenize(&chars_of("(10A+ 2mA)*3"));
    assert_eq!(
        toks,
        vec![
            Token::Open,
            Token::Word(1, 4),
            Token::Operator(Op::Add),
            Token::Word(6, 9),
            Token::Close,
            Token::Operator(Op::Mul),
            Token::Word(11, 12),
        ]
    );
}

#[test]
fn display_text() {
    assert_eq!(sci_units::display("32", Unit::Length), "32 meters");
    assert_eq!(sci_units::display("0.004", Unit::ElectricPotential), "0.004 volts");
}
