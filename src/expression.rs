use vstd::prelude::*;

use crate::catalogue::Unit;
use crate::literal::{literal_of, parse_literal, Literal, LiteralError, LiteralFault};
use crate::rules::{product, product_of, quotient, quotient_of, sum, sum_of};

verus! {

/// An arithmetic operator.
#[derive(Clone, Copy, PartialEq, Eq, Structural, Debug, Hash)]
pub enum Op {
    Add,
    Sub,
    Mul,
    Div,
}

/// An expression over quantities whose leaves are literal tokens, as written.
#[derive(Debug)]
pub enum Source {
    Token(String),
    Binary(Op, Box<Source>, Box<Source>),
}

/// An expression over quantities whose leaves are read literals.
#[derive(Debug)]
pub enum Expr {
    Leaf(Literal),
    Binary(Op, Box<Expr>, Box<Expr>),
}

/// An operation between two kinds that the catalogue does not allow.
#[derive(Clone, Copy, PartialEq, Eq, Structural, Debug)]
pub struct KindError {
    pub op: Op,
    pub left: Unit,
    pub right: Unit,
}

/// The kind of `l op r`, or `None` where the operation is not allowed.
pub open spec fn apply_kind(op: Op, l: Unit, r: Unit) -> Option<Unit> {
    match op {
        Op::Add => sum_of(l, r),
        Op::Sub => sum_of(l, r),
        Op::Mul => product_of(l, r),
        Op::Div => quotient_of(l, r),
    }
}

/// The kind of `l op r`, or `None` where the operation is not allowed.
pub fn operate(op: Op, l: Unit, r: Unit) -> (res: Option<Unit>)
    ensures
        res == apply_kind(op, l, r),
{
    match op {
        Op::Add => sum(l, r),
        Op::Sub => sum(l, r),
        Op::Mul => product(l, r),
        Op::Div => quotient(l, r),
    }
}

/// The expression with each literal token read, or the fault of the first
/// token, from the left, that cannot be read.
pub open spec fn read_source(s: Source) -> Result<Expr, LiteralFault>
    decreases s,
{
    match s {
        Source::Token(t) => match literal_of(t@) {
            Ok(l) => Ok(Expr::Leaf(l)),
            Err(f) => Err(f),
        },
        Source::Binary(op, a, b) => match read_source(*a) {
            Err(f) => Err(f),
            Ok(x) => match read_source(*b) {
                Err(f) => Err(f),
                Ok(y) => Ok(Expr::Binary(op, Box::new(x), Box::new(y))),
            },
        },
    }
}

/// Reads every literal token of an expression, before anything is computed.
pub fn read_expression(s: &Source) -> (r: Result<Expr, LiteralError>)
    ensures
        match r {
            Ok(e) => read_source(*s) == Ok::<Expr, LiteralFault>(e),
            Err(e) => read_source(*s) == Err::<Expr, LiteralFault>(e.fault),
        },
    decreases s,
{
    match s {
        Source::Token(t) => match parse_literal(t.as_str()) {
            Ok(l) => Ok(Expr::Leaf(l)),
            Err(e) => Err(e),
        },
        Source::Binary(op, a, b) => {
            let x = match read_expression(a) {
                Ok(x) => x,
                Err(e) => {
                    return Err(e);
                },
            };
            let y = match read_expression(b) {
                Ok(y) => y,
                Err(e) => {
                    return Err(e);
                },
            };
            Ok(Expr::Binary(*op, Box::new(x), Box::new(y)))
        },
    }
}

/// The kind of an expression under the catalogue's rules, or the first
/// operation, in order of evaluation, that they do not allow.
pub open spec fn kind_of(e: Expr) -> Result<Unit, KindError>
    decreases e,
{
    match e {
        Expr::Leaf(l) => Ok(l.unit),
        Expr::Binary(op, a, b) => match kind_of(*a) {
            Err(k) => Err(k),
            Ok(x) => match kind_of(*b) {
                Err(k) => Err(k),
                Ok(y) => match apply_kind(op, x, y) {
                    Some(z) => Ok(z),
                    None => Err(KindError { op, left: x, right: y }),
                },
            },
        },
    }
}

/// The kind of an expression, checked against the catalogue's rules.
pub fn expression_kind(e: &Expr) -> (r: Result<Unit, KindError>)
    ensures
        r == kind_of(*e),
    decreases e,
{
    match e {
        Expr::Leaf(l) => Ok(l.unit),
        Expr::Binary(op, a, b) => {
            let x = match expression_kind(a) {
                Ok(x) => x,
                Err(k) => {
                    return Err(k);
                },
            };
            let y = match expression_kind(b) {
                Ok(y) => y,
                Err(k) => {
                    return Err(k);
                },
            };
            match operate(*op, x, y) {
                Some(z) => Ok(z),
                None => Err(KindError { op: *op, left: x, right: y }),
            }
        },
    }
}

} // verus!
