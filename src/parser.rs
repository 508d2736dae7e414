use vstd::prelude::*;

use crate::catalogue::Unit;
use crate::expression::{
    expression_kind, kind_of, read_expression, read_source, Expr, KindError, Op, Source,
};
use crate::literal::{literal_of, LiteralError, LiteralFault};
use crate::text::chars_of;

verus! {

/// A token of an expression text, with the bounds of a literal in the text.
#[derive(Clone, Copy, PartialEq, Eq, Structural, Debug)]
pub enum Token {
    /// A literal, such as `10kg`, at `text[from..to]`.
    Word(usize, usize),
    Operator(Op),
    Open,
    Close,
}

/// Whether `c` separates tokens without being one.
pub open spec fn is_space(c: char) -> bool {
    c == ' ' || c == '\t' || c == '\n' || c == '\r'
}

/// The operator that `c` writes, if any.
pub open spec fn operator_of(c: char) -> Option<Op> {
    if c == '+' {
        Some(Op::Add)
    } else if c == '-' {
        Some(Op::Sub)
    } else if c == '*' {
        Some(Op::Mul)
    } else if c == '/' {
        Some(Op::Div)
    } else {
        None
    }
}

/// Whether `c` ends a literal.
pub open spec fn ends_word(c: char) -> bool {
    is_space(c) || operator_of(c) is Some || c == '(' || c == ')'
}

/// Where the literal that starts at `i` ends: at the first space, operator or
/// parenthesis, or at the end of the text.
pub open spec fn word_end(s: Seq<char>, i: int) -> int
    decreases s.len() - i,
{
    if i < 0 || i >= s.len() || ends_word(s[i]) {
        i
    } else {
        word_end(s, i + 1)
    }
}

/// The tokens of `s[i..]`, read from the left: spaces are skipped, each
/// operator and parenthesis is a token, and every other run of characters is
/// a literal.
pub open spec fn tokens_from(s: Seq<char>, i: int) -> Seq<Token>
    decreases s.len() - i,
{
    if i < 0 || i >= s.len() {
        Seq::empty()
    } else if is_space(s[i]) {
        tokens_from(s, i + 1)
    } else if operator_of(s[i]) is Some {
        seq![Token::Operator(operator_of(s[i]).unwrap())] + tokens_from(s, i + 1)
    } else if s[i] == '(' {
        seq![Token::Open] + tokens_from(s, i + 1)
    } else if s[i] == ')' {
        seq![Token::Close] + tokens_from(s, i + 1)
    } else if i < word_end(s, i) <= s.len() {
        seq![Token::Word(i as usize, word_end(s, i) as usize)] + tokens_from(s, word_end(s, i))
    } else {
        Seq::empty()
    }
}

proof fn lemma_word_end(s: Seq<char>, i: int)
    requires
        0 <= i <= s.len(),
    ensures
        i <= word_end(s, i) <= s.len(),
        word_end(s, i) < s.len() ==> ends_word(s[word_end(s, i)]),
        forall|j: int| i <= j < word_end(s, i) ==> !ends_word(s[j]),
    decreases s.len() - i,
{
    if i < s.len() && !ends_word(s[i]) {
        lemma_word_end(s, i + 1);
    }
}

/// The tokens of an expression text.
pub fn tokenize(text: &Vec<char>) -> (r: Vec<Token>)
    ensures
        r@ == tokens_from(text@, 0),
{
    let n = text.len();
    let mut r: Vec<Token> = Vec::new();
    let mut i: usize = 0;
    while i < n
        invariant
            n == text@.len(),
            i <= n,
            r@ + tokens_from(text@, i as int) == tokens_from(text@, 0),
        decreases n - i,
    {
        let c = text[i];
        let ghost old_r = r@;
        if c == ' ' || c == '\t' || c == '\n' || c == '\r' {
            i += 1;
        } else if c == '+' || c == '-' || c == '*' || c == '/' {
            let op = if c == '+' {
                Op::Add
            } else if c == '-' {
                Op::Sub
            } else if c == '*' {
                Op::Mul
            } else {
                Op::Div
            };
            r.push(Token::Operator(op));
            assert(r@ + tokens_from(text@, i + 1) =~= old_r + tokens_from(text@, i as int));
            i += 1;
        } else if c == '(' {
            r.push(Token::Open);
            assert(r@ + tokens_from(text@, i + 1) =~= old_r + tokens_from(text@, i as int));
            i += 1;
        } else if c == ')' {
            r.push(Token::Close);
            assert(r@ + tokens_from(text@, i + 1) =~= old_r + tokens_from(text@, i as int));
            i += 1;
        } else {
            proof {
                lemma_word_end(text@, i as int);
            }
            let mut j: usize = i + 1;
            while j < n && !(text[j] == ' ' || text[j] == '\t' || text[j] == '\n' || text[j] == '\r'
                || text[j] == '+' || text[j] == '-' || text[j] == '*' || text[j] == '/' || text[j]
                == '(' || text[j] == ')')
                invariant
                    n == text@.len(),
                    i < j <= word_end(text@, i as int) <= n,
                    word_end(text@, i as int) < n ==> ends_word(text@[word_end(text@, i as int)]),
                decreases n - j,
            {
                j += 1;
            }
            r.push(Token::Word(i, j));
            assert(r@ + tokens_from(text@, j as int) =~= old_r + tokens_from(text@, i as int));
            i = j;
        }
    }
    assert(r@ =~= tokens_from(text@, 0));
    r
}

/// An expression whose leaves are positions of literal tokens.
#[derive(Debug)]
pub enum Tree {
    Leaf(usize),
    Binary(Op, Box<Tree>, Box<Tree>),
}

/// The operator of an additive token, `+` or `-`.
pub open spec fn additive(t: Token) -> Option<Op> {
    match t {
        Token::Operator(Op::Add) => Some(Op::Add),
        Token::Operator(Op::Sub) => Some(Op::Sub),
        _ => None,
    }
}

/// The operator of a multiplicative token, `*` or `/`.
pub open spec fn multiplicative(t: Token) -> Option<Op> {
    match t {
        Token::Operator(Op::Mul) => Some(Op::Mul),
        Token::Operator(Op::Div) => Some(Op::Div),
        _ => None,
    }
}

/// A factor at position `p`: a literal, or a sum in parentheses. The result
/// holds the tree and the position after it.
pub open spec fn parse_factor(t: Seq<Token>, p: int) -> Option<(Tree, int)>
    decreases t.len() - p, 0int,
{
    if p < 0 || p >= t.len() {
        None
    } else {
        match t[p] {
            Token::Word(_, _) => Some((Tree::Leaf(p as usize), p + 1)),
            Token::Open => match parse_sum(t, p + 1) {
                Some((e, q)) => {
                    if p < q < t.len() && t[q] == Token::Close {
                        Some((e, q + 1))
                    } else {
                        None
                    }
                },
                None => None,
            },
            _ => None,
        }
    }
}

/// A product at position `p`: factors joined by `*` and `/`, grouped from
/// the left.
pub open spec fn parse_product(t: Seq<Token>, p: int) -> Option<(Tree, int)>
    decreases t.len() - p, 2int,
{
    if p < 0 || p > t.len() {
        None
    } else {
        match parse_factor(t, p) {
            Some((f, q)) => {
                if p < q <= t.len() {
                    product_rest(t, q, f)
                } else {
                    None
                }
            },
            None => None,
        }
    }
}

/// The rest of a product after `acc`, from position `q`.
pub open spec fn product_rest(t: Seq<Token>, q: int, acc: Tree) -> Option<(Tree, int)>
    decreases t.len() - q, 1int,
{
    if 0 <= q < t.len() && multiplicative(t[q]) is Some {
        match parse_factor(t, q + 1) {
            Some((f, r)) => {
                if q < r <= t.len() {
                    product_rest(
                        t,
                        r,
                        Tree::Binary(multiplicative(t[q]).unwrap(), Box::new(acc), Box::new(f)),
                    )
                } else {
                    None
                }
            },
            None => None,
        }
    } else {
        Some((acc, q))
    }
}

/// A sum at position `p`: products joined by `+` and `-`, grouped from the
/// left.
pub open spec fn parse_sum(t: Seq<Token>, p: int) -> Option<(Tree, int)>
    decreases t.len() - p, 4int,
{
    if p < 0 || p > t.len() {
        None
    } else {
        match parse_product(t, p) {
            Some((f, q)) => {
                if p < q <= t.len() {
                    sum_rest(t, q, f)
                } else {
                    None
                }
            },
            None => None,
        }
    }
}

/// The rest of a sum after `acc`, from position `q`.
pub open spec fn sum_rest(t: Seq<Token>, q: int, acc: Tree) -> Option<(Tree, int)>
    decreases t.len() - q, 3int,
{
    if 0 <= q < t.len() && additive(t[q]) is Some {
        match parse_product(t, q + 1) {
            Some((f, r)) => {
                if q < r <= t.len() {
                    sum_rest(t, r, Tree::Binary(additive(t[q]).unwrap(), Box::new(acc), Box::new(f)))
                } else {
                    None
                }
            },
            None => None,
        }
    } else {
        Some((acc, q))
    }
}

/// The tree of a whole token sequence, where it is one sum.
pub open spec fn parse_tokens(t: Seq<Token>) -> Option<Tree> {
    match parse_sum(t, 0) {
        Some((e, q)) => {
            if q == t.len() {
                Some(e)
            } else {
                None
            }
        },
        None => None,
    }
}

fn additive_op(t: Token) -> (r: Option<Op>)
    ensures
        r == additive(t),
{
    match t {
        Token::Operator(Op::Add) => Some(Op::Add),
        Token::Operator(Op::Sub) => Some(Op::Sub),
        _ => None,
    }
}

fn multiplicative_op(t: Token) -> (r: Option<Op>)
    ensures
        r == multiplicative(t),
{
    match t {
        Token::Operator(Op::Mul) => Some(Op::Mul),
        Token::Operator(Op::Div) => Some(Op::Div),
        _ => None,
    }
}

fn factor(t: &Vec<Token>, p: usize) -> (r: Option<(Tree, usize)>)
    ensures
        match r {
            Some((e, q)) => parse_factor(t@, p as int) == Some((e, q as int)),
            None => parse_factor(t@, p as int) is None,
        },
    decreases t@.len() - p, 0int,
{
    if p >= t.len() {
        return None;
    }
    match t[p] {
        Token::Word(_, _) => Some((Tree::Leaf(p), p + 1)),
        Token::Open => match sum(t, p + 1) {
            Some((e, q)) => {
                if p < q && q < t.len() && t[q] == Token::Close {
                    Some((e, q + 1))
                } else {
                    None
                }
            },
            None => None,
        },
        _ => None,
    }
}

fn product(t: &Vec<Token>, p: usize) -> (r: Option<(Tree, usize)>)
    requires
        p <= t@.len(),
    ensures
        match r {
            Some((e, q)) => parse_product(t@, p as int) == Some((e, q as int)),
            None => parse_product(t@, p as int) is None,
        },
    decreases t@.len() - p, 2int,
{
    match factor(t, p) {
        Some((f, q)) => {
            if p < q && q <= t.len() {
                product_tail(t, q, f)
            } else {
                None
            }
        },
        None => None,
    }
}

fn product_tail(t: &Vec<Token>, q: usize, acc: Tree) -> (r: Option<(Tree, usize)>)
    requires
        q <= t@.len(),
    ensures
        match r {
            Some((e, k)) => product_rest(t@, q as int, acc) == Some((e, k as int)),
            None => product_rest(t@, q as int, acc) is None,
        },
    decreases t@.len() - q, 1int,
{
    if q < t.len() {
        match multiplicative_op(t[q]) {
            Some(op) => {
                return match factor(t, q + 1) {
                    Some((f, r)) => {
                        if q < r && r <= t.len() {
                            product_tail(t, r, Tree::Binary(op, Box::new(acc), Box::new(f)))
                        } else {
                            None
                        }
                    },
                    None => None,
                };
            },
            None => {},
        }
    }
    Some((acc, q))
}

fn sum(t: &Vec<Token>, p: usize) -> (r: Option<(Tree, usize)>)
    ensures
        match r {
            Some((e, q)) => parse_sum(t@, p as int) == Some((e, q as int)),
            None => parse_sum(t@, p as int) is None,
        },
    decreases t@.len() - p, 4int,
{
    if p > t.len() {
        return None;
    }
    match product(t, p) {
        Some((f, q)) => {
            if p < q && q <= t.len() {
                sum_tail(t, q, f)
            } else {
                None
            }
        },
        None => None,
    }
}

fn sum_tail(t: &Vec<Token>, q: usize, acc: Tree) -> (r: Option<(Tree, usize)>)
    requires
        q <= t@.len(),
    ensures
        match r {
            Some((e, k)) => sum_rest(t@, q as int, acc) == Some((e, k as int)),
            None => sum_rest(t@, q as int, acc) is None,
        },
    decreases t@.len() - q, 3int,
{
    if q < t.len() {
        match additive_op(t[q]) {
            Some(op) => {
                return match product(t, q + 1) {
                    Some((f, r)) => {
                        if q < r && r <= t.len() {
                            sum_tail(t, r, Tree::Binary(op, Box::new(acc), Box::new(f)))
                        } else {
                            None
                        }
                    },
                    None => None,
                };
            },
            None => {},
        }
    }
    Some((acc, q))
}

/// The tree of a whole token sequence, where it is one sum.
pub fn parse_tree(t: &Vec<Token>) -> (r: Option<Tree>)
    ensures
        r == parse_tokens(t@),
{
    match sum(t, 0) {
        Some((e, q)) => {
            if q == t.len() {
                Some(e)
            } else {
                None
            }
        },
        None => None,
    }
}

/// Whether every leaf of `tree` is the position of a literal token of `t`.
pub open spec fn leaves_in(tree: Tree, t: Seq<Token>) -> bool
    decreases tree,
{
    match tree {
        Tree::Leaf(i) => i < t.len() && t[i as int] is Word,
        Tree::Binary(_, x, y) => leaves_in(*x, t) && leaves_in(*y, t),
    }
}

/// Whether every literal token of `t` lies within a text of `n` characters.
pub open spec fn words_within(t: Seq<Token>, n: int) -> bool {
    forall|k: int|
        0 <= k < t.len() ==> match #[trigger] t[k] {
            Token::Word(a, b) => a <= b <= n,
            _ => true,
        }
}

proof fn lemma_tokens_within(s: Seq<char>, i: int)
    requires
        0 <= i,
        s.len() <= usize::MAX,
    ensures
        words_within(tokens_from(s, i), s.len() as int),
    decreases s.len() - i,
{
    if 0 <= i < s.len() {
        if is_space(s[i]) || operator_of(s[i]) is Some || s[i] == '(' || s[i] == ')' {
            lemma_tokens_within(s, i + 1);
        } else if i < word_end(s, i) <= s.len() {
            lemma_tokens_within(s, word_end(s, i));
        }
        let r = tokens_from(s, i);
        assert forall|k: int| 0 <= k < r.len() implies match #[trigger] r[k] {
            Token::Word(a, b) => a <= b <= s.len(),
            _ => true,
        } by {
            if is_space(s[i]) {
            } else if operator_of(s[i]) is Some || s[i] == '(' || s[i] == ')' {
                if k > 0 {
                    assert(r[k] == tokens_from(s, i + 1)[k - 1]);
                }
            } else if i < word_end(s, i) <= s.len() {
                if k > 0 {
                    assert(r[k] == tokens_from(s, word_end(s, i))[k - 1]);
                }
            }
        }
    }
}

proof fn lemma_factor_leaves(t: Seq<Token>, p: int)
    requires
        t.len() <= usize::MAX,
    ensures
        parse_factor(t, p) matches Some((e, _)) ==> leaves_in(e, t),
    decreases t.len() - p, 0int,
{
    if 0 <= p < t.len() && t[p] == Token::Open {
        lemma_sum_leaves(t, p + 1);
    }
}

proof fn lemma_product_leaves(t: Seq<Token>, p: int)
    requires
        t.len() <= usize::MAX,
    ensures
        parse_product(t, p) matches Some((e, _)) ==> leaves_in(e, t),
    decreases t.len() - p, 2int,
{
    if 0 <= p <= t.len() {
        lemma_factor_leaves(t, p);
        match parse_factor(t, p) {
            Some((f, q)) => {
                if p < q <= t.len() {
                    lemma_product_rest_leaves(t, q, f);
                }
            },
            None => {},
        }
    }
}

proof fn lemma_product_rest_leaves(t: Seq<Token>, q: int, acc: Tree)
    requires
        t.len() <= usize::MAX,
        leaves_in(acc, t),
    ensures
        product_rest(t, q, acc) matches Some((e, _)) ==> leaves_in(e, t),
    decreases t.len() - q, 1int,
{
    if 0 <= q < t.len() && multiplicative(t[q]) is Some {
        lemma_factor_leaves(t, q + 1);
        match parse_factor(t, q + 1) {
            Some((f, r)) => {
                if q < r <= t.len() {
                    lemma_product_rest_leaves(
                        t,
                        r,
                        Tree::Binary(multiplicative(t[q]).unwrap(), Box::new(acc), Box::new(f)),
                    );
                }
            },
            None => {},
        }
    }
}

proof fn lemma_sum_leaves(t: Seq<Token>, p: int)
    requires
        t.len() <= usize::MAX,
    ensures
        parse_sum(t, p) matches Some((e, _)) ==> leaves_in(e, t),
    decreases t.len() - p, 4int,
{
    if 0 <= p <= t.len() {
        lemma_product_leaves(t, p);
        match parse_product(t, p) {
            Some((f, q)) => {
                if p < q <= t.len() {
                    lemma_sum_rest_leaves(t, q, f);
                }
            },
            None => {},
        }
    }
}

proof fn lemma_sum_rest_leaves(t: Seq<Token>, q: int, acc: Tree)
    requires
        t.len() <= usize::MAX,
        leaves_in(acc, t),
    ensures
        sum_rest(t, q, acc) matches Some((e, _)) ==> leaves_in(e, t),
    decreases t.len() - q, 3int,
{
    if 0 <= q < t.len() && additive(t[q]) is Some {
        lemma_product_leaves(t, q + 1);
        match parse_product(t, q + 1) {
            Some((f, r)) => {
                if q < r <= t.len() {
                    lemma_sum_rest_leaves(
                        t,
                        r,
                        Tree::Binary(additive(t[q]).unwrap(), Box::new(acc), Box::new(f)),
                    );
                }
            },
            None => {},
        }
    }
}

/// Whether `s` is `tree` with each leaf replaced by the text of its literal.
pub open spec fn source_of_tree(s: Source, tree: Tree, t: Seq<Token>, text: Seq<char>) -> bool
    decreases tree,
{
    match (s, tree) {
        (Source::Token(w), Tree::Leaf(i)) => i < t.len() && match t[i as int] {
            Token::Word(a, b) => a <= b <= text.len() && w@ == text.subrange(a as int, b as int),
            _ => false,
        },
        (Source::Binary(op, a, b), Tree::Binary(tree_op, x, y)) => op == tree_op && source_of_tree(
            *a,
            *x,
            t,
            text,
        ) && source_of_tree(*b, *y, t, text),
        _ => false,
    }
}

fn to_source(tree: &Tree, t: &Vec<Token>, text: &str) -> (s: Source)
    requires
        leaves_in(*tree, t@),
        words_within(t@, text@.len() as int),
    ensures
        source_of_tree(s, *tree, t@, text@),
    decreases tree,
{
    match tree {
        Tree::Leaf(i) => {
            let tok = t[*i];
            assert(tok == t@[*i as int]);
            match tok {
                Token::Word(a, b) => Source::Token(String::from_str(text.substring_char(a, b))),
                // every leaf is a literal token, so this arm is never taken
                _ => Source::Token(String::new()),
            }
        },
        Tree::Binary(op, x, y) => {
            let a = to_source(x, t, text);
            let b = to_source(y, t, text);
            Source::Binary(*op, Box::new(a), Box::new(b))
        },
    }
}

/// An expression text that is not a sum of literals and parenthesized
/// expressions.
#[derive(Clone, Copy, PartialEq, Eq, Structural, Debug)]
pub struct SyntaxError;

/// Reads an expression text such as `10A * (100ohms + 2kohms)` into its
/// tree of literal tokens: `*` and `/` bind tighter than `+` and `-`, and
/// operators of one level group from the left.
pub fn parse_expression(text: &str) -> (r: Result<Source, SyntaxError>)
    ensures
        match r {
            Ok(s) => parse_tokens(tokens_from(text@, 0)) matches Some(tree) && source_of_tree(
                s,
                tree,
                tokens_from(text@, 0),
                text@,
            ),
            Err(_) => parse_tokens(tokens_from(text@, 0)) is None,
        },
{
    let chars = chars_of(text);
    let tokens = tokenize(&chars);
    match parse_tree(&tokens) {
        Some(tree) => {
            proof {
                assert(text@.len() == chars.len());
                assert(tokens@.len() == tokens.len());
                lemma_tokens_within(text@, 0);
                lemma_sum_leaves(tokens@, 0);
            }
            Ok(to_source(&tree, &tokens, text))
        },
        None => Err(SyntaxError),
    }
}

/// The expression of `tree` with each literal read, or the fault of the
/// first literal, from the left, that cannot be read.
pub open spec fn read_tree(tree: Tree, t: Seq<Token>, text: Seq<char>) -> Result<Expr, LiteralFault>
    decreases tree,
{
    match tree {
        Tree::Leaf(i) => {
            if i < t.len() {
                match t[i as int] {
                    Token::Word(a, b) => match literal_of(text.subrange(a as int, b as int)) {
                        Ok(l) => Ok(Expr::Leaf(l)),
                        Err(f) => Err(f),
                    },
                    _ => Err(LiteralFault::MalformedNumber),
                }
            } else {
                Err(LiteralFault::MalformedNumber)
            }
        },
        Tree::Binary(op, x, y) => match read_tree(*x, t, text) {
            Err(f) => Err(f),
            Ok(a) => match read_tree(*y, t, text) {
                Err(f) => Err(f),
                Ok(b) => Ok(Expr::Binary(op, Box::new(a), Box::new(b))),
            },
        },
    }
}

proof fn lemma_read_source_of_tree(s: Source, tree: Tree, t: Seq<Token>, text: Seq<char>)
    requires
        source_of_tree(s, tree, t, text),
    ensures
        read_source(s) == read_tree(tree, t, text),
    decreases tree,
{
    match (s, tree) {
        (Source::Binary(_, a, b), Tree::Binary(_, x, y)) => {
            lemma_read_source_of_tree(*a, *x, t, text);
            lemma_read_source_of_tree(*b, *y, t, text);
        },
        _ => {},
    }
}

/// Why an expression text has no kind.
#[derive(Debug)]
pub enum ExpressionError {
    /// The text is not an expression.
    Syntax(SyntaxError),
    /// A literal of the expression cannot be read.
    Literal(LiteralError),
    /// An operation of the expression is not allowed between its kinds.
    Kind(KindError),
}

/// Reads an expression text, rewrites each literal into a quantity of its
/// kind, and checks every operation against the catalogue, before anything is
/// computed. Gives the read expression and its kind.
pub fn check_expression(text: &str) -> (r: Result<(Expr, Unit), ExpressionError>)
    ensures
        match parse_tokens(tokens_from(text@, 0)) {
            None => r matches Err(ExpressionError::Syntax(_)),
            Some(tree) => match read_tree(tree, tokens_from(text@, 0), text@) {
                Err(f) => r matches Err(ExpressionError::Literal(e)) && e.fault == f,
                Ok(e) => match kind_of(e) {
                    Err(k) => r == Err::<(Expr, Unit), ExpressionError>(ExpressionError::Kind(k)),
                    Ok(u) => r matches Ok((x, v)) && x == e && v == u,
                },
            },
        },
{
    let source = match parse_expression(text) {
        Ok(s) => s,
        Err(e) => {
            return Err(ExpressionError::Syntax(e));
        },
    };
    proof {
        let tree = parse_tokens(tokens_from(text@, 0)).unwrap();
        lemma_read_source_of_tree(source, tree, tokens_from(text@, 0), text@);
    }
    let expr = match read_expression(&source) {
        Ok(e) => e,
        Err(e) => {
            return Err(ExpressionError::Literal(e));
        },
    };
    match expression_kind(&expr) {
        Ok(u) => Ok((expr, u)),
        Err(k) => Err(ExpressionError::Kind(k)),
    }
}

} // verus!
