use vstd::prelude::*;

use crate::catalogue::{unit_at, Unit, UNIT_COUNT};
use crate::decimal::{append_range, decimal_of_text, is_digit, parse_decimal, Decimal};
use crate::text::chars_of;

verus! {

/// A metric prefix of a literal's unit symbol.
#[derive(Clone, Copy, PartialEq, Eq, Structural, Debug, Hash)]
pub enum Prefix {
    Femto,
    Pico,
    Nano,
    Micro,
    Milli,
    Kilo,
    Mega,
    Giga,
    Tera,
}

impl Prefix {
    /// The letter that writes the prefix.
    pub open spec fn spec_symbol(self) -> char {
        match self {
            Prefix::Femto => 'f',
            Prefix::Pico => 'p',
            Prefix::Nano => 'n',
            Prefix::Micro => 'u',
            Prefix::Milli => 'm',
            Prefix::Kilo => 'k',
            Prefix::Mega => 'M',
            Prefix::Giga => 'G',
            Prefix::Tera => 'T',
        }
    }

    /// The power of ten that the prefix multiplies by.
    pub open spec fn spec_exponent(self) -> int {
        match self {
            Prefix::Femto => -15,
            Prefix::Pico => -12,
            Prefix::Nano => -9,
            Prefix::Micro => -6,
            Prefix::Milli => -3,
            Prefix::Kilo => 3,
            Prefix::Mega => 6,
            Prefix::Giga => 9,
            Prefix::Tera => 12,
        }
    }

    /// The power of ten that the prefix multiplies by.
    pub fn exponent(self) -> (r: i32)
        ensures
            r == self.spec_exponent(),
    {
        match self {
            Prefix::Femto => -15,
            Prefix::Pico => -12,
            Prefix::Nano => -9,
            Prefix::Micro => -6,
            Prefix::Milli => -3,
            Prefix::Kilo => 3,
            Prefix::Mega => 6,
            Prefix::Giga => 9,
            Prefix::Tera => 12,
        }
    }

    /// The prefix written by the letter `c`, if any.
    pub fn from_symbol(c: char) -> (r: Option<Prefix>)
        ensures
            match r {
                Some(p) => p.spec_symbol() == c,
                None => forall|p: Prefix| p.spec_symbol() != c,
            },
    {
        match c {
            'f' => Some(Prefix::Femto),
            'p' => Some(Prefix::Pico),
            'n' => Some(Prefix::Nano),
            'u' => Some(Prefix::Micro),
            'm' => Some(Prefix::Milli),
            'k' => Some(Prefix::Kilo),
            'M' => Some(Prefix::Mega),
            'G' => Some(Prefix::Giga),
            'T' => Some(Prefix::Tera),
            _ => None,
        }
    }
}

/// The power of ten of an optional prefix.
pub open spec fn prefix_exponent(p: Option<Prefix>) -> int {
    match p {
        Some(p) => p.spec_exponent(),
        None => 0,
    }
}

/// Whether `suffix` is the unit symbol of kind `u`, after the prefix `p`.
/// Kinds without a unit symbol are never written as literals.
pub open spec fn spells_unit(suffix: Seq<char>, u: Unit, p: Option<Prefix>) -> bool {
    &&& u.spec_literal_suffix().len() > 0
    &&& match p {
        Some(p) => suffix == seq![p.spec_symbol()] + u.spec_literal_suffix(),
        None => suffix == u.spec_literal_suffix(),
    }
}

/// Whether some prefix (or none) before the symbol of `u` spells `suffix`.
pub open spec fn spells_kind(suffix: Seq<char>, u: Unit) -> bool {
    exists|p: Option<Prefix>| spells_unit(suffix, u, p)
}

/// The kind and prefix that `suffix` spells: the first kind of the catalogue
/// that it spells, with its prefix; `None` where it spells none.
#[verifier::opaque]
pub open spec fn unit_of_suffix(suffix: Seq<char>) -> Option<(Unit, Option<Prefix>)> {
    if exists|u: Unit| spells_kind(suffix, u) {
        let u = choose|u: Unit|
            spells_kind(suffix, u) && forall|v: Unit| v.index() < u.index() ==> !spells_kind(suffix, v);
        Some((u, choose|p: Option<Prefix>| spells_unit(suffix, u, p)))
    } else {
        None
    }
}

/// A prefix is fixed by the unit it stands before and the suffix it spells.
proof fn lemma_prefix_unique(suffix: Seq<char>, u: Unit, p: Option<Prefix>, q: Option<Prefix>)
    requires
        spells_unit(suffix, u, p),
        spells_unit(suffix, u, q),
    ensures
        p == q,
{
    match (p, q) {
        (Some(a), Some(b)) => {
            assert(suffix[0] == a.spec_symbol());
            assert(suffix[0] == b.spec_symbol());
        },
        (Some(a), None) => {
            assert(suffix.len() == u.spec_literal_suffix().len() + 1);
        },
        (None, Some(b)) => {
            assert(suffix.len() == u.spec_literal_suffix().len() + 1);
        },
        (None, None) => {},
    }
}

/// The kind and prefix that the characters `s[from..]` spell.
fn find_unit_of_suffix(s: &Vec<char>, from: usize) -> (r: Option<(Unit, Option<Prefix>)>)
    requires
        from <= s@.len(),
    ensures
        r == unit_of_suffix(s@.skip(from as int)),
{
    let ghost suffix = s@.skip(from as int);
    let len = s.len() - from;
    let mut i: usize = 0;
    while i < UNIT_COUNT
        invariant
            i <= UNIT_COUNT,
            len == suffix.len(),
            suffix == s@.skip(from as int),
            from <= s@.len(),
            forall|j: int| 0 <= j < i ==> !spells_kind(suffix, #[trigger] unit_at(j)),
        decreases UNIT_COUNT - i,
    {
        let u = Unit::at(i);
        let found = prefix_before(s, from, u);
        proof {
            crate::catalogue::lemma_unit_at_index(u);
        }
        match found {
            Some(p) => {
                proof {
                    reveal(unit_of_suffix);
                    assert(spells_kind(suffix, u));
                    assert forall|v: Unit| v.index() < u.index() implies !spells_kind(suffix, v) by {
                        crate::catalogue::lemma_unit_at_index(v);
                    }
                    let w = choose|w: Unit|
                        spells_kind(suffix, w) && forall|v: Unit| v.index() < w.index() ==> !spells_kind(suffix, v);
                    crate::catalogue::lemma_unit_at_index(w);
                    if w.index() < u.index() {
                        assert(!spells_kind(suffix, w));
                    }
                    if u.index() < w.index() {
                        assert(!spells_kind(suffix, u));
                    }
                    assert(w == u);
                    let q = choose|q: Option<Prefix>| spells_unit(suffix, u, q);
                    lemma_prefix_unique(suffix, u, p, q);
                }
                return Some((u, p));
            },
            None => {},
        }
        i += 1;
    }
    proof {
        reveal(unit_of_suffix);
        assert forall|v: Unit| !spells_kind(suffix, v) by {
            crate::catalogue::lemma_unit_at_index(v);
        }
    }
    None
}

/// The prefix with which `s[from..]` spells the symbol of `u`, if it does.
fn prefix_before(s: &Vec<char>, from: usize, u: Unit) -> (r: Option<Option<Prefix>>)
    requires
        from <= s@.len(),
    ensures
        match r {
            Some(p) => spells_unit(s@.skip(from as int), u, p),
            None => !spells_kind(s@.skip(from as int), u),
        },
{
    let ghost suffix = s@.skip(from as int);
    let len = s.len() - from;
    let lit = chars_of(u.literal_suffix());
    let mut found: Option<Option<Prefix>> = None;
    if lit.len() > 0 {
        if len > 0 && len - 1 == lit.len() {
            let n = s.len();
            assert(from < n);
            match Prefix::from_symbol(s[from]) {
                Some(p) => {
                    if same_chars(s, from + 1, &lit) {
                        assert(suffix =~= seq![p.spec_symbol()] + u.spec_literal_suffix());
                        found = Some(Some(p));
                    } else {
                        assert(suffix.skip(1) =~= s@.subrange(from + 1, s@.len() as int));
                    }
                },
                None => {},
            }
        } else if len == lit.len() && same_chars(s, from, &lit) {
            assert(suffix =~= u.spec_literal_suffix());
            found = Some(None);
        }
    }
    proof {
        match found {
            Some(p) => {
                assert(spells_unit(suffix, u, p));
            },
            None => {
                assert forall|p: Option<Prefix>| !spells_unit(suffix, u, p) by {
                    match p {
                        Some(q) => {
                            if spells_unit(suffix, u, p) {
                                assert(suffix[0] == q.spec_symbol());
                                assert(suffix.skip(1) =~= u.spec_literal_suffix());
                                assert(suffix.skip(1) =~= s@.subrange(from + 1, s@.len() as int));
                            }
                        },
                        None => {
                            if spells_unit(suffix, u, p) {
                                assert(s@.subrange(from as int, s@.len() as int) =~= suffix);
                            }
                        },
                    }
                }
            },
        }
    }
    found
}

/// Whether `s[from..]` starts with, and is as long as, the characters of `t`.
fn same_chars(s: &Vec<char>, from: usize, t: &Vec<char>) -> (r: bool)
    requires
        from <= s@.len(),
        s@.len() - from == t@.len(),
    ensures
        r == (s@.subrange(from as int, s@.len() as int) == t@),
{
    let mut i: usize = 0;
    while i < t.len()
        invariant
            from <= s@.len(),
            s@.len() - from == t@.len(),
            i <= t@.len(),
            forall|j: int| 0 <= j < i ==> s@[from + j] == t@[j],
        decreases t@.len() - i,
    {
        let n = s.len();
        assert(from + i < n);
        if s[from + i] != t[i] {
            assert(s@.subrange(from as int, s@.len() as int)[i as int] != t@[i as int]);
            return false;
        }
        i += 1;
    }
    assert(s@.subrange(from as int, s@.len() as int) =~= t@);
    true
}

/// A literal read as a quantity: its kind, and its value in the kind's
/// canonical unit.
#[derive(Clone, Copy, PartialEq, Eq, Structural, Debug)]
pub struct Literal {
    pub unit: Unit,
    pub value: Decimal,
}

/// Why a literal could not be read.
#[derive(Clone, Copy, PartialEq, Eq, Structural, Debug)]
pub enum LiteralFault {
    /// The number before the unit symbol is not a decimal whose digits and
    /// scaled exponent fit.
    MalformedNumber,
    /// No kind of the catalogue is written with that unit symbol.
    UnknownSuffix,
}

/// A literal that could not be read, with the reason and the literal itself.
#[derive(Debug)]
pub struct LiteralError {
    pub fault: LiteralFault,
    pub token: String,
}

/// Length of the number at the start of a literal: its leading digits and
/// decimal points.
pub open spec fn number_len(s: Seq<char>) -> int
    decreases s.len(),
{
    if s.len() == 0 || !(is_digit(s[0]) || s[0] == '.') {
        0
    } else {
        1 + number_len(s.drop_first())
    }
}

proof fn lemma_number_len(s: Seq<char>)
    ensures
        0 <= number_len(s) <= s.len(),
        number_len(s) < s.len() ==> !(is_digit(s[number_len(s)]) || s[number_len(s)] == '.'),
        forall|j: int| 0 <= j < number_len(s) ==> is_digit(s[j]) || s[j] == '.',
    decreases s.len(),
{
    if s.len() > 0 && (is_digit(s[0]) || s[0] == '.') {
        lemma_number_len(s.drop_first());
        assert forall|j: int| 0 <= j < number_len(s) implies is_digit(s[j]) || s[j] == '.' by {
            if j > 0 {
                assert(s[j] == s.drop_first()[j - 1]);
            }
        }
    }
}

/// What a literal `<number>[<prefix>]<symbol>` stands for. The number is
/// scaled by the prefix and by the power of ten between the symbol's unit and
/// the kind's canonical unit; a number without a symbol is a scalar.
pub open spec fn literal_of(s: Seq<char>) -> Result<Literal, LiteralFault> {
    let number = s.take(number_len(s));
    let suffix = s.skip(number_len(s));
    match decimal_of_text(number) {
        None => Err(LiteralFault::MalformedNumber),
        Some(d) => {
            if suffix.len() == 0 {
                Ok(Literal { unit: Unit::Scalar, value: d })
            } else {
                match unit_of_suffix(suffix) {
                    None => Err(LiteralFault::UnknownSuffix),
                    Some((u, p)) => {
                        let e = d.exponent + prefix_exponent(p) + u.spec_literal_exponent();
                        if i32::MIN <= e <= i32::MAX {
                            Ok(
                                Literal {
                                    unit: u,
                                    value: Decimal {
                                        negative: d.negative,
                                        digits: d.digits,
                                        exponent: e as i32,
                                    },
                                },
                            )
                        } else {
                            Err(LiteralFault::MalformedNumber)
                        }
                    },
                }
            }
        },
    }
}

/// Reads a literal such as `10kg`, `5mV` or `2.5ohms` as a quantity in the
/// canonical unit of its kind.
pub fn parse_literal(token: &str) -> (r: Result<Literal, LiteralError>)
    ensures
        match r {
            Ok(l) => literal_of(token@) == Ok::<Literal, LiteralFault>(l),
            Err(e) => literal_of(token@) == Err::<Literal, LiteralFault>(e.fault) && e.token@
                == token@,
        },
{
    let s = chars_of(token);
    let n = s.len();
    proof {
        lemma_number_len(s@);
    }
    let mut end: usize = 0;
    while end < n && (('0' <= s[end] && s[end] <= '9') || s[end] == '.')
        invariant
            n == s@.len(),
            0 <= end <= number_len(s@),
            0 <= number_len(s@) <= s@.len(),
            number_len(s@) < s@.len() ==> !(is_digit(s@[number_len(s@)]) || s@[number_len(s@)] == '.'),
            forall|j: int| 0 <= j < number_len(s@) ==> is_digit(s@[j]) || s@[j] == '.',
        decreases n - end,
    {
        end += 1;
    }
    let mut number: Vec<char> = Vec::new();
    append_range(&mut number, &s, 0, end);
    assert(number@ =~= s@.take(number_len(s@)));
    let d = match parse_decimal(&number) {
        Some(d) => d,
        None => {
            return Err(LiteralError { fault: LiteralFault::MalformedNumber, token: token.to_owned() });
        },
    };
    if end == n {
        assert(s@.skip(end as int).len() == 0);
        return Ok(Literal { unit: Unit::Scalar, value: d });
    }
    match find_unit_of_suffix(&s, end) {
        None => Err(LiteralError { fault: LiteralFault::UnknownSuffix, token: token.to_owned() }),
        Some((u, p)) => {
            let pe: i64 = match p {
                Some(p) => p.exponent() as i64,
                None => 0,
            };
            let e: i64 = d.exponent as i64 + pe + u.literal_exponent() as i64;
            if e < i32::MIN as i64 || e > i32::MAX as i64 {
                Err(LiteralError { fault: LiteralFault::MalformedNumber, token: token.to_owned() })
            } else {
                Ok(
                    Literal {
                        unit: u,
                        value: Decimal { negative: d.negative, digits: d.digits, exponent: e as i32 },
                    },
                )
            }
        },
    }
}

} // verus!
