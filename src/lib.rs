//! Physical quantities whose arithmetic is checked against a catalogue of
//! dimensional relationships.
//!
//! The catalogue names every kind of quantity with its canonical unit's label
//! and literal symbol. The rules say which sums, products, quotients, square
//! roots and conversions between kinds are legal and what kind they give.
//! Literals such as `10kg` are read into exact decimals in canonical units,
//! values are compared to a number of significant figures, and serialized
//! values `<number>_<label>` are written and read back.

mod catalogue;
mod compare;
mod decimal;
mod expression;
mod literal;
mod parser;
mod rules;
mod serial;
mod text;

pub use catalogue::{find_unit, lemma_unit_at_index, unit_at, DecibelType, Unit, UNIT_COUNT};
pub use compare::{
    agree_to_figures, approx_eq, digit_count, law_agree_reflexive, law_agree_symmetric, magnitude,
    signed_digits, SIGNIFICANT_FIGURES,
};
pub use decimal::{
    all_digits, decimal_of_text, digits_value, is_decimal_text, is_digit, parse_decimal, pow10,
    Decimal,
};
pub use expression::{
    apply_kind, expression_kind, kind_of, operate, read_expression, read_source, Expr, KindError,
    Op, Source,
};
pub use literal::{
    literal_of, number_len, parse_literal, prefix_exponent, spells_kind, spells_unit,
    unit_of_suffix, Literal, LiteralError, LiteralFault, Prefix,
};
pub use parser::{
    check_expression, parse_expression, parse_tokens, parse_tree, read_tree, source_of_tree,
    tokenize, tokens_from, ExpressionError, SyntaxError, Token, Tree,
};
pub use rules::{
    convertible, converts, declared, divides_to, law_conversion_round_trip, law_cross_multiply,
    law_product_divides_back, law_reciprocal_involution, law_square_root_of_square,
    lemma_multiplies_commute, lemma_product_unique, lemma_quotient_unique,
    lemma_square_root_unique, multiplies_to, product, product_by, product_of, quotient,
    quotient_by, quotient_of, relation, relation_at, square_root, square_root_of, sum, sum_of,
    Relation, RELATION_COUNT,
};
pub use serial::{
    decimal_of_serialized, deserialize, deserialize_text, display, law_serial_decimal_round_trip,
    law_serial_round_trip,
    lemma_label_has_no_separator, number_of_serialized, serialize, serialized, SerialError,
    SerialFault,
};
pub use text::{chars_of, same_text};

