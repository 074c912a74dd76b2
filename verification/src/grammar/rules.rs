use vstd::prelude::*;
use crate::grammar::token::{Token, Delim, seq_depth, lemma_group_depth};
use crate::grammar::numeral::numeral_of;
use crate::grammar::ast::{
    Loc, loc, Func, Aggregate, Relation, NumberV, SignedV, TermV, ErrorKind, ErrorV, ConsV,
};

verus! {

// The grammar, read from the token at index `i` of a stream `s` whose place
// is `p`:
//
//   expr  := term (('+' | '-') term)*
//   term  := unary (('*' | '/') unary)*
//   unary := ('-' | '+')* power
//   power := atom ('^' signed-number)?
//   atom  := number | place | call | comprehension | '(' expr ')' | '{' rust '}'
//
// Each rule gives the term it read and the number of tokens it took, or the
// first error it met.

/// How many tokens are left from index `i` on.
pub open spec fn rem(s: Seq<Token>, i: int) -> nat {
    if i < s.len() {
        (s.len() - i) as nat
    } else {
        0
    }
}

/// Whether the `i`-th token is the punctuation character `c`.
pub open spec fn punct_at(s: Seq<Token>, i: int, c: char) -> bool {
    0 <= i < s.len() && (s[i] matches Token::Punct { ch, .. } && ch == c)
}

/// Whether the `i`-th token is a group with delimiter `d`.
pub open spec fn group_at(s: Seq<Token>, i: int, d: Delim) -> bool {
    0 <= i < s.len() && (s[i] matches Token::Group { delim, .. } && delim == d)
}

/// Whether the `i`-th token is the identifier `w`.
pub open spec fn ident_at(s: Seq<Token>, i: int, w: Seq<char>) -> bool {
    0 <= i < s.len() && (s[i] matches Token::Ident { text } && text@ == w)
}

/// The tokens of a group; nothing for another token.
pub open spec fn stream_of(t: Token) -> Seq<Token> {
    match t {
        Token::Group { stream, .. } => stream@,
        _ => Seq::<Token>::empty(),
    }
}

pub open spec fn word_sum() -> Seq<char> {
    seq!['s', 'u', 'm']
}

pub open spec fn word_prod() -> Seq<char> {
    seq!['p', 'r', 'o', 'd']
}

pub open spec fn word_signpower() -> Seq<char> {
    seq!['s', 'i', 'g', 'n', 'p', 'o', 'w', 'e', 'r']
}

pub open spec fn word_sqrt() -> Seq<char> {
    seq!['s', 'q', 'r', 't']
}

pub open spec fn word_in() -> Seq<char> {
    seq!['i', 'n']
}

/// The unary function a name calls, if it is one of them.
pub open spec fn func_of(w: Seq<char>) -> Option<Func> {
    if w == seq!['e', 'x', 'p'] {
        Some(Func::Exp)
    } else if w == seq!['l', 'o', 'g'] {
        Some(Func::Log)
    } else if w == seq!['s', 'i', 'n'] {
        Some(Func::Sin)
    } else if w == seq!['c', 'o', 's'] {
        Some(Func::Cos)
    } else if w == seq!['a', 'b', 's'] {
        Some(Func::Abs)
    } else if w == seq!['e', 'n', 't', 'r', 'o', 'p', 'y'] {
        Some(Func::Entropy)
    } else {
        None
    }
}

/// An error at the `i`-th token of the stream at `p`.
pub open spec fn err_at(p: Seq<usize>, i: int, kind: ErrorKind) -> ErrorV {
    ErrorV { at: Some(loc(p, i)), kind }
}

/// An error at the macro call itself.
pub open spec fn err_call(kind: ErrorKind) -> ErrorV {
    ErrorV { at: None, kind }
}

/// The number of bracket groups that follow one another from index `i` on.
pub open spec fn brackets(s: Seq<Token>, i: int) -> nat
    decreases rem(s, i),
{
    if group_at(s, i, Delim::Bracket) {
        1 + brackets(s, i + 1)
    } else {
        0
    }
}

/// The index of the first identifier `in` from index `k` on.
pub open spec fn find_in(g: Seq<Token>, k: int) -> Option<nat>
    decreases rem(g, k),
{
    if k < 0 || k >= g.len() {
        None
    } else if ident_at(g, k, word_in()) {
        Some(k as nat)
    } else {
        find_in(g, k + 1)
    }
}

/// The index of the first comma from index `k` on.
pub open spec fn find_comma(g: Seq<Token>, k: int) -> Option<nat>
    decreases rem(g, k),
{
    if k < 0 || k >= g.len() {
        None
    } else if punct_at(g, k, ',') {
        Some(k as nat)
    } else {
        find_comma(g, k + 1)
    }
}

/// The end of what was read: no token may follow.
pub open spec fn p_finish(s: Seq<Token>, p: Seq<usize>, i: int) -> Result<(), ErrorV> {
    if i < s.len() {
        Err(err_at(p, i, ErrorKind::TrailingToken))
    } else {
        Ok(())
    }
}

/// A numeric literal, one token.
pub open spec fn p_number(s: Seq<Token>, p: Seq<usize>, i: int) -> Result<NumberV, ErrorV> {
    if i < 0 || i >= s.len() {
        Err(err_call(ErrorKind::ExpectedNumber))
    } else {
        match s[i] {
            Token::Literal { text } => match numeral_of(text@) {
                Some(n) => Ok(NumberV { numeral: n, at: loc(p, i) }),
                None => Err(err_at(p, i, ErrorKind::NotNumeric)),
            },
            _ => Err(err_at(p, i, ErrorKind::ExpectedNumber)),
        }
    }
}

/// A numeric literal with an optional sign before it, and the tokens it took.
pub open spec fn p_signed(s: Seq<Token>, p: Seq<usize>, i: int) -> Result<(SignedV, nat), ErrorV> {
    if punct_at(s, i, '-') || punct_at(s, i, '+') {
        match p_number(s, p, i + 1) {
            Ok(n) => Ok((SignedV { negative: punct_at(s, i, '-'), number: n }, 2)),
            Err(e) => Err(e),
        }
    } else {
        match p_number(s, p, i) {
            Ok(n) => Ok((SignedV { negative: false, number: n }, 1)),
            Err(e) => Err(e),
        }
    }
}

/// A signed numeric literal if one stands at index `i`; nothing taken otherwise.
pub open spec fn p_try_signed(s: Seq<Token>, p: Seq<usize>, i: int) -> Option<(SignedV, nat)> {
    match p_signed(s, p, i) {
        Ok(r) => Some(r),
        Err(_) => None,
    }
}

/// `expr := term (('+' | '-') term)*`
pub open spec fn p_expr(s: Seq<Token>, p: Seq<usize>, i: int) -> Result<(TermV, nat), ErrorV>
    decreases seq_depth(s), rem(s, i), 6nat,
{
    match p_term(s, p, i) {
        Ok((t, n)) => match p_expr_rest(s, p, i + n, t) {
            Ok((e, m)) => Ok((e, n + m)),
            Err(e) => Err(e),
        },
        Err(e) => Err(e),
    }
}

/// The `(('+' | '-') term)*` of an expression whose first terms read as `lhs`.
#[verifier::opaque]
pub open spec fn p_expr_rest(s: Seq<Token>, p: Seq<usize>, i: int, lhs: TermV) -> Result<(TermV, nat), ErrorV>
    decreases seq_depth(s), rem(s, i), 5nat,
{
    if punct_at(s, i, '+') || punct_at(s, i, '-') {
        match p_term(s, p, i + 1) {
            Ok((r, n)) => {
                let t = if punct_at(s, i, '+') {
                    TermV::Add(Box::new(lhs), Box::new(r))
                } else {
                    TermV::Sub(Box::new(lhs), Box::new(r))
                };
                match p_expr_rest(s, p, i + 1 + n, t) {
                    Ok((e, m)) => Ok((e, 1 + n + m)),
                    Err(e) => Err(e),
                }
            },
            Err(e) => Err(e),
        }
    } else {
        Ok((lhs, 0))
    }
}

/// `term := unary (('*' | '/') unary)*`
pub open spec fn p_term(s: Seq<Token>, p: Seq<usize>, i: int) -> Result<(TermV, nat), ErrorV>
    decreases seq_depth(s), rem(s, i), 4nat,
{
    match p_unary(s, p, i) {
        Ok((u, n)) => match p_term_rest(s, p, i + n, u) {
            Ok((t, m)) => Ok((t, n + m)),
            Err(e) => Err(e),
        },
        Err(e) => Err(e),
    }
}

/// The `(('*' | '/') unary)*` of a term whose first factors read as `lhs`.
pub open spec fn p_term_rest(s: Seq<Token>, p: Seq<usize>, i: int, lhs: TermV) -> Result<(TermV, nat), ErrorV>
    decreases seq_depth(s), rem(s, i), 3nat,
{
    if punct_at(s, i, '*') || punct_at(s, i, '/') {
        match p_unary(s, p, i + 1) {
            Ok((r, n)) => {
                let t = if punct_at(s, i, '*') {
                    TermV::Mul(Box::new(lhs), Box::new(r))
                } else {
                    TermV::Div(Box::new(lhs), Box::new(r))
                };
                match p_term_rest(s, p, i + 1 + n, t) {
                    Ok((e, m)) => Ok((e, 1 + n + m)),
                    Err(e) => Err(e),
                }
            },
            Err(e) => Err(e),
        }
    } else {
        Ok((lhs, 0))
    }
}

/// `unary := ('-' | '+')* power`
pub open spec fn p_unary(s: Seq<Token>, p: Seq<usize>, i: int) -> Result<(TermV, nat), ErrorV>
    decreases seq_depth(s), rem(s, i), 2nat,
{
    if punct_at(s, i, '-') || punct_at(s, i, '+') {
        match p_unary(s, p, i + 1) {
            Ok((e, n)) => if punct_at(s, i, '-') {
                Ok((TermV::Neg(Box::new(e)), n + 1))
            } else {
                Ok((e, n + 1))
            },
            Err(e) => Err(e),
        }
    } else {
        p_power(s, p, i)
    }
}

/// `power := atom ('^' signed-number)?`
pub open spec fn p_power(s: Seq<Token>, p: Seq<usize>, i: int) -> Result<(TermV, nat), ErrorV>
    decreases seq_depth(s), rem(s, i), 1nat,
{
    match p_atom(s, p, i) {
        Ok((b, n)) => if punct_at(s, i + n, '^') {
            match p_signed(s, p, i + n + 1) {
                Ok((v, m)) => Ok((TermV::Pow { base: Box::new(b), exponent: v }, n + 1 + m)),
                Err(e) => Err(e),
            }
        } else {
            Ok((b, n))
        },
        Err(e) => Err(e),
    }
}

/// `atom := number | place | call | comprehension | '(' expr ')' | '{' rust '}'`
pub open spec fn p_atom(s: Seq<Token>, p: Seq<usize>, i: int) -> Result<(TermV, nat), ErrorV>
    decreases seq_depth(s), rem(s, i), 0nat,
{
    if i < 0 || i >= s.len() {
        Err(err_call(ErrorKind::UnexpectedEnd))
    } else {
        match s[i] {
            Token::Group { delim, stream } => {
                if delim == Delim::Brace {
                    Ok((TermV::Splice { at: loc(p, i) }, 1))
                } else if delim == Delim::Parenthesis {
                    proof {
                        lemma_group_depth(s, i);
                    }
                    match p_whole(stream@, p.push(i as usize)) {
                        Ok(e) => Ok((e, 1)),
                        Err(e) => Err(e),
                    }
                } else {
                    Err(err_at(p, i, ErrorKind::UnexpectedToken))
                }
            },
            Token::Ident { text } => {
                if group_at(s, i + 1, Delim::Parenthesis) {
                    proof {
                        lemma_group_depth(s, i + 1);
                    }
                    match p_call(text@, stream_of(s[i + 1]), p.push((i + 1) as usize), loc(p, i)) {
                        Ok(t) => Ok((t, 2)),
                        Err(e) => Err(e),
                    }
                } else {
                    Ok((TermV::Place { at: loc(p, i), brackets: brackets(s, i + 1) }, 1 + brackets(s, i + 1)))
                }
            },
            Token::Literal { text } => match numeral_of(text@) {
                Some(n) => Ok((TermV::Constant(NumberV { numeral: n, at: loc(p, i) }), 1)),
                None => Err(err_at(p, i, ErrorKind::NotNumeric)),
            },
            Token::Punct { .. } => Err(err_at(p, i, ErrorKind::UnexpectedToken)),
        }
    }
}

/// A whole stream read as one expression, nothing after it.
pub open spec fn p_whole(g: Seq<Token>, q: Seq<usize>) -> Result<TermV, ErrorV>
    decreases seq_depth(g), g.len(), 7nat,
{
    match p_expr(g, q, 0) {
        Ok((e, n)) => match p_finish(g, q, n as int) {
            Ok(_) => Ok(e),
            Err(x) => Err(x),
        },
        Err(x) => Err(x),
    }
}

/// The call of `name`, placed at `at`, on the tokens `g` of the group that
/// follows it, placed at `q`.
pub open spec fn p_call(name: Seq<char>, g: Seq<Token>, q: Seq<usize>, at: Loc) -> Result<TermV, ErrorV>
    decreases seq_depth(g), g.len(), 8nat,
{
    if name == word_sum() {
        p_aggregate(Aggregate::Sum, g, q, at)
    } else if name == word_prod() {
        p_aggregate(Aggregate::Prod, g, q, at)
    } else if name == word_signpower() {
        match p_expr(g, q, 0) {
            Ok((a, n)) => if punct_at(g, n as int, ',') {
                match p_signed(g, q, n as int + 1) {
                    Ok((v, m)) => match p_finish(g, q, n + 1 + m as int) {
                        Ok(_) => Ok(TermV::Signpower { at, arg: Box::new(a), exponent: v }),
                        Err(e) => Err(e),
                    },
                    Err(e) => Err(e),
                }
            } else {
                Err(ErrorV { at: Some(at), kind: ErrorKind::SignpowerArity })
            },
            Err(e) => Err(e),
        }
    } else {
        match func_of(name) {
            Some(f) => match p_whole(g, q) {
                Ok(a) => Ok(TermV::Call { func: f, at, arg: Box::new(a) }),
                Err(e) => Err(e),
            },
            None => Err(ErrorV { at: Some(at), kind: ErrorKind::UnknownFunction { sqrt: name == word_sqrt() } }),
        }
    }
}

/// `sum(pattern in iterable, body)` and `prod` likewise: the pattern ends at
/// the first `in`, the iterable at the first comma after it.
pub open spec fn p_aggregate(kind: Aggregate, g: Seq<Token>, q: Seq<usize>, at: Loc) -> Result<TermV, ErrorV>
    decreases seq_depth(g), g.len(), 7nat,
{
    let usage = ErrorV { at: Some(at), kind: ErrorKind::ComprehensionUsage { kind } };
    match find_in(g, 0) {
        Some(k) => if k == 0 {
            Err(usage)
        } else {
            match find_comma(g, k as int + 1) {
                Some(c) => if c == k + 1 || c + 1 == g.len() {
                    Err(usage)
                } else {
                    match p_expr(g, q, c as int + 1) {
                        Ok((b, n)) => match p_finish(g, q, c + 1 + n as int) {
                            Ok(_) => Ok(TermV::Aggregate {
                                kind,
                                at,
                                in_pos: k,
                                comma: c,
                                body: Box::new(b),
                            }),
                            Err(e) => Err(e),
                        },
                        Err(e) => Err(e),
                    }
                },
                None => Err(usage),
            }
        },
        None => Err(usage),
    }
}

/// A comparison at index `i` and the tokens it takes: `<=` and `>=` as a
/// joint `<` or `>` and an `=`, `==` as a joint `=` and an `=`, or a lone `=`.
pub open spec fn relation_at(s: Seq<Token>, i: int) -> Option<(Relation, nat)> {
    if 0 <= i < s.len() && s[i] is Punct {
        let c = s[i]->ch;
        let joint = s[i]->joint;
        let then_eq = punct_at(s, i + 1, '=');
        if (c == '<' || c == '>') && joint && then_eq {
            Some((if c == '<' { Relation::Le } else { Relation::Ge }, 2))
        } else if c == '=' && joint && then_eq {
            Some((Relation::Eq, 2))
        } else if c == '=' && !joint {
            Some((Relation::Eq, 1))
        } else {
            None
        }
    } else {
        None
    }
}

/// The error where a comparison was expected at index `i`.
pub open spec fn relation_error(s: Seq<Token>, p: Seq<usize>, i: int) -> ErrorV {
    if i < s.len() {
        if punct_at(s, i, '<') || punct_at(s, i, '>') {
            err_at(p, i, ErrorKind::StrictComparison)
        } else {
            err_at(p, i, ErrorKind::ExpectedComparison)
        }
    } else {
        err_call(ErrorKind::ExpectedComparison)
    }
}

/// The two-sided form `lo rel expr rel hi`, where both comparisons are `<=`
/// or both `>=`. `None` where the input is not of that shape, and it is then
/// read as a one-sided constraint.
pub open spec fn p_chained(s: Seq<Token>, p: Seq<usize>) -> Result<Option<ConsV>, ErrorV> {
    match p_try_signed(s, p, 0) {
        None => Ok(None),
        Some((lo, a)) => match relation_at(s, a as int) {
            Some((first, b)) => if first == Relation::Eq {
                Ok(None)
            } else {
                match p_expr(s, p, a + b as int) {
                    Err(_) => Ok(None),
                    Ok((ex, n)) => {
                        let j = a + b + n as int;
                        match relation_at(s, j) {
                            None => Ok(None),
                            Some((second, d)) => if second != first {
                                Err(err_at(p, j, ErrorKind::MixedDirections))
                            } else {
                                match p_try_signed(s, p, j + d as int) {
                                    None => Err(
                                        if j + d < s.len() {
                                            err_at(p, j + d, ErrorKind::NonLiteralBound)
                                        } else {
                                            err_call(ErrorKind::NonLiteralBound)
                                        },
                                    ),
                                    Some((hi, e)) => match p_finish(s, p, j + d + e as int) {
                                        Err(x) => Err(x),
                                        Ok(_) => Ok(Some(
                                            if second == Relation::Le {
                                                ConsV::TwoSided { body: ex, lower: lo, upper: hi }
                                            } else {
                                                ConsV::TwoSided { body: ex, lower: hi, upper: lo }
                                            },
                                        )),
                                    },
                                }
                            },
                        }
                    },
                }
            },
            None => Ok(None),
        },
    }
}

/// A whole constraint: the two-sided form, or `expr cmp expr`.
pub open spec fn p_constraint(s: Seq<Token>, p: Seq<usize>) -> Result<ConsV, ErrorV> {
    match p_chained(s, p) {
        Err(e) => Err(e),
        Ok(Some(c)) => Ok(c),
        Ok(None) => match p_expr(s, p, 0) {
            Err(e) => Err(e),
            Ok((lhs, n)) => match relation_at(s, n as int) {
                None => Err(relation_error(s, p, n as int)),
                Some((c, k)) => match p_expr(s, p, n + k as int) {
                    Err(e) => Err(e),
                    Ok((rhs, m)) => match p_finish(s, p, n + k + m as int) {
                        Err(e) => Err(e),
                        Ok(_) => Ok(ConsV::OneSided { lhs, relation: c, rhs }),
                    },
                },
            },
        },
    }
}

/// What the expression macro reads from its whole input.
pub open spec fn expression_of(s: Seq<Token>) -> Result<TermV, ErrorV> {
    if s.len() == 0 {
        Err(err_call(ErrorKind::EmptyExpression))
    } else {
        p_whole(s, Seq::<usize>::empty())
    }
}

/// What the constraint macro reads from its whole input.
pub open spec fn constraint_of(s: Seq<Token>) -> Result<ConsV, ErrorV> {
    if s.len() == 0 {
        Err(err_call(ErrorKind::EmptyConstraint))
    } else {
        p_constraint(s, Seq::<usize>::empty())
    }
}

/// What a rule gives, with `d` more tokens counted as taken.
pub open spec fn shifted(r: Result<(TermV, nat), ErrorV>, d: nat) -> Result<(TermV, nat), ErrorV> {
    match r {
        Ok((t, m)) => Ok((t, m + d)),
        Err(e) => Err(e),
    }
}

/// One step of the `+`/`-` loop of an expression.
pub proof fn lemma_expr_rest_step(s: Seq<Token>, p: Seq<usize>, j: int, lhs: TermV)
    ensures
        (punct_at(s, j, '+') || punct_at(s, j, '-')) ==> p_expr_rest(s, p, j, lhs) == match p_term(s, p, j + 1) {
            Ok((r, n)) => shifted(
                p_expr_rest(
                    s,
                    p,
                    j + 1 + n,
                    if punct_at(s, j, '+') {
                        TermV::Add(Box::new(lhs), Box::new(r))
                    } else {
                        TermV::Sub(Box::new(lhs), Box::new(r))
                    },
                ),
                1 + n,
            ),
            Err(e) => Err(e),
        },
        !(punct_at(s, j, '+') || punct_at(s, j, '-')) ==> p_expr_rest(s, p, j, lhs) == Ok::<(TermV, nat), ErrorV>((lhs, 0)),
{
    reveal(p_expr_rest);
}

/// A product or quotient of `l` and `r`, as the operator at `i` says: `*`
/// multiplies, anything else divides.
pub open spec fn factor_op(s: Seq<Token>, i: int, l: TermV, r: TermV) -> TermV {
    if punct_at(s, i, '*') {
        TermV::Mul(Box::new(l), Box::new(r))
    } else {
        TermV::Div(Box::new(l), Box::new(r))
    }
}

/// A sum or difference of `l` and `r`, as the operator at `i` says: `+`
/// adds, anything else subtracts.
pub open spec fn summand_op(s: Seq<Token>, i: int, l: TermV, r: TermV) -> TermV {
    if punct_at(s, i, '+') {
        TermV::Add(Box::new(l), Box::new(r))
    } else {
        TermV::Sub(Box::new(l), Box::new(r))
    }
}

/// Products and quotients associate to the left: after factors read as
/// `lhs`, reading `op1 b op2 c` goes on from `op2(op1(lhs, b), c)`, so every
/// `*` or `/` applies to everything read to its left.
pub proof fn law_factors_associate_left(
    s: Seq<Token>,
    p: Seq<usize>,
    i: int,
    lhs: TermV,
    b: TermV,
    n: nat,
    c: TermV,
    m: nat,
)
    requires
        punct_at(s, i, '*') || punct_at(s, i, '/'),
        p_unary(s, p, i + 1) == Ok::<(TermV, nat), ErrorV>((b, n)),
        punct_at(s, i + 1 + n, '*') || punct_at(s, i + 1 + n, '/'),
        p_unary(s, p, i + 2 + n) == Ok::<(TermV, nat), ErrorV>((c, m)),
    ensures
        p_term_rest(s, p, i, lhs) == shifted(
            p_term_rest(s, p, i + 2 + n + m, factor_op(s, i + 1 + n, factor_op(s, i, lhs, b), c)),
            2 + n + m,
        ),
{
    let first = factor_op(s, i, lhs, b);
    let both = factor_op(s, i + 1 + n, first, c);
    assert(p_term_rest(s, p, i + 1 + n, first) == shifted(p_term_rest(s, p, i + 2 + n + m, both), 1 + m));
    match p_term_rest(s, p, i + 2 + n + m, both) {
        Ok((e, k)) => {
            assert(p_term_rest(s, p, i, lhs) == Ok::<(TermV, nat), ErrorV>((e, 1 + n + (1 + m + k))));
        },
        Err(e) => {},
    }
}

/// A term of three factors `a op1 b op2 c`, with no `*` or `/` after it,
/// reads as `op2(op1(a, b), c)`: `x / 2 * y` is `(x / 2) * y`.
pub proof fn law_three_factors(
    s: Seq<Token>,
    p: Seq<usize>,
    i: int,
    a: TermV,
    na: nat,
    b: TermV,
    nb: nat,
    c: TermV,
    nc: nat,
)
    requires
        p_unary(s, p, i) == Ok::<(TermV, nat), ErrorV>((a, na)),
        punct_at(s, i + na, '*') || punct_at(s, i + na, '/'),
        p_unary(s, p, i + na + 1) == Ok::<(TermV, nat), ErrorV>((b, nb)),
        punct_at(s, i + na + 1 + nb, '*') || punct_at(s, i + na + 1 + nb, '/'),
        p_unary(s, p, i + na + 2 + nb) == Ok::<(TermV, nat), ErrorV>((c, nc)),
        !punct_at(s, i + na + 2 + nb + nc, '*'),
        !punct_at(s, i + na + 2 + nb + nc, '/'),
    ensures
        p_term(s, p, i) == Ok::<(TermV, nat), ErrorV>(
            (factor_op(s, i + na + 1 + nb, factor_op(s, i + na, a, b), c), na + nb + nc + 2),
        ),
{
    law_factors_associate_left(s, p, i + na, a, b, nb, c, nc);
    let t = factor_op(s, i + na + 1 + nb, factor_op(s, i + na, a, b), c);
    assert(p_term_rest(s, p, i + na + 2 + nb + nc, t) == Ok::<(TermV, nat), ErrorV>((t, 0nat)));
}

/// Sums and differences associate to the left: after terms read as `lhs`,
/// reading `op1 b op2 c` goes on from `op2(op1(lhs, b), c)`.
pub proof fn law_summands_associate_left(
    s: Seq<Token>,
    p: Seq<usize>,
    i: int,
    lhs: TermV,
    b: TermV,
    n: nat,
    c: TermV,
    m: nat,
)
    requires
        punct_at(s, i, '+') || punct_at(s, i, '-'),
        p_term(s, p, i + 1) == Ok::<(TermV, nat), ErrorV>((b, n)),
        punct_at(s, i + 1 + n, '+') || punct_at(s, i + 1 + n, '-'),
        p_term(s, p, i + 2 + n) == Ok::<(TermV, nat), ErrorV>((c, m)),
    ensures
        p_expr_rest(s, p, i, lhs) == shifted(
            p_expr_rest(s, p, i + 2 + n + m, summand_op(s, i + 1 + n, summand_op(s, i, lhs, b), c)),
            2 + n + m,
        ),
{
    reveal(p_expr_rest);
    let first = summand_op(s, i, lhs, b);
    let both = summand_op(s, i + 1 + n, first, c);
    assert(p_expr_rest(s, p, i + 1 + n, first) == shifted(p_expr_rest(s, p, i + 2 + n + m, both), 1 + m));
    match p_expr_rest(s, p, i + 2 + n + m, both) {
        Ok((e, k)) => {
            assert(p_expr_rest(s, p, i, lhs) == Ok::<(TermV, nat), ErrorV>((e, 1 + n + (1 + m + k))));
        },
        Err(e) => {},
    }
}

/// A sign applies to the whole power after it: `-x^2` is `-(x^2)`, and a
/// `+` sign leaves what follows it as it is.
pub proof fn law_sign_applies_to_power(s: Seq<Token>, p: Seq<usize>, i: int, t: TermV, n: nat)
    requires
        punct_at(s, i, '-') || punct_at(s, i, '+'),
        !punct_at(s, i + 1, '-'),
        !punct_at(s, i + 1, '+'),
        p_power(s, p, i + 1) == Ok::<(TermV, nat), ErrorV>((t, n)),
    ensures
        punct_at(s, i, '-') ==> p_unary(s, p, i) == Ok::<(TermV, nat), ErrorV>((TermV::Neg(Box::new(t)), n + 1)),
        punct_at(s, i, '+') ==> p_unary(s, p, i) == Ok::<(TermV, nat), ErrorV>((t, n + 1)),
{
    assert(p_unary(s, p, i + 1) == p_power(s, p, i + 1));
}

/// A power raises the atom before `^` to the signed number after it:
/// `x^-2` is `x` to the power `-2`.
pub proof fn law_power_of_atom(s: Seq<Token>, p: Seq<usize>, i: int, b: TermV, n: nat, v: SignedV, m: nat)
    requires
        p_atom(s, p, i) == Ok::<(TermV, nat), ErrorV>((b, n)),
        punct_at(s, i + n, '^'),
        p_signed(s, p, i + n + 1) == Ok::<(SignedV, nat), ErrorV>((v, m)),
    ensures
        p_power(s, p, i) == Ok::<(TermV, nat), ErrorV>((TermV::Pow { base: Box::new(b), exponent: v }, n + 1 + m)),
{
}

/// Products bind tighter than sums: after terms read as `lhs`, a `+` or `-`
/// followed by a whole term `b` (with no further `+` or `-`) adds or
/// subtracts all of `b`, so `a + b * c` is `a + (b * c)`.
pub proof fn law_summand_is_whole_term(s: Seq<Token>, p: Seq<usize>, i: int, lhs: TermV, b: TermV, n: nat)
    requires
        punct_at(s, i, '+') || punct_at(s, i, '-'),
        p_term(s, p, i + 1) == Ok::<(TermV, nat), ErrorV>((b, n)),
        !punct_at(s, i + 1 + n, '+'),
        !punct_at(s, i + 1 + n, '-'),
    ensures
        p_expr_rest(s, p, i, lhs) == Ok::<(TermV, nat), ErrorV>((summand_op(s, i, lhs, b), 1 + n)),
{
    reveal(p_expr_rest);
    assert(p_expr_rest(s, p, i + 1 + n, summand_op(s, i, lhs, b)) == Ok::<(TermV, nat), ErrorV>(
        (summand_op(s, i, lhs, b), 0nat),
    ));
}

/// In a two-sided constraint `lo rel body rel hi`, the bound on the small
/// side of the comparisons is the lower one: `lo <= body <= hi` has lower
/// bound `lo` and upper bound `hi`, `hi >= body >= lo` the same.
pub proof fn law_two_sided_bounds(
    s: Seq<Token>,
    p: Seq<usize>,
    lo: SignedV,
    a: nat,
    rel: Relation,
    b: nat,
    body: TermV,
    n: nat,
    d: nat,
    hi: SignedV,
    e: nat,
)
    requires
        p_signed(s, p, 0) == Ok::<(SignedV, nat), ErrorV>((lo, a)),
        rel != Relation::Eq,
        relation_at(s, a as int) == Some((rel, b)),
        p_expr(s, p, a + b as int) == Ok::<(TermV, nat), ErrorV>((body, n)),
        relation_at(s, a + b + n as int) == Some((rel, d)),
        p_signed(s, p, a + b + n + d as int) == Ok::<(SignedV, nat), ErrorV>((hi, e)),
        p_finish(s, p, a + b + n + d + e as int) is Ok,
    ensures
        rel == Relation::Le ==> p_constraint(s, p) == Ok::<ConsV, ErrorV>(
            ConsV::TwoSided { body, lower: lo, upper: hi },
        ),
        rel == Relation::Ge ==> p_constraint(s, p) == Ok::<ConsV, ErrorV>(
            ConsV::TwoSided { body, lower: hi, upper: lo },
        ),
{
}

/// Each unary function is called by its own name, and no other name calls
/// one: `exp`, `log`, `sin`, `cos`, `abs` and `entropy`.
pub proof fn law_function_names(w: Seq<char>)
    ensures
        func_of(w) == Some(Func::Exp) <==> w == seq!['e', 'x', 'p'],
        func_of(w) == Some(Func::Log) <==> w == seq!['l', 'o', 'g'],
        func_of(w) == Some(Func::Sin) <==> w == seq!['s', 'i', 'n'],
        func_of(w) == Some(Func::Cos) <==> w == seq!['c', 'o', 's'],
        func_of(w) == Some(Func::Abs) <==> w == seq!['a', 'b', 's'],
        func_of(w) == Some(Func::Entropy) <==> w == seq!['e', 'n', 't', 'r', 'o', 'p', 'y'],
{
}

/// A call of a unary function applies it to the whole expression in its
/// parentheses; a call of any other name that is neither a comprehension nor
/// `signpower` is an unknown function, with the `sqrt` hint exactly for
/// `sqrt`.
pub proof fn law_function_call(name: Seq<char>, g: Seq<Token>, q: Seq<usize>, at: Loc)
    requires
        name != word_sum(),
        name != word_prod(),
        name != word_signpower(),
    ensures
        func_of(name) matches Some(f) ==> (p_whole(g, q) matches Ok(a) ==> p_call(name, g, q, at) == Ok::<
            TermV,
            ErrorV,
        >(TermV::Call { func: f, at, arg: Box::new(a) })),
        func_of(name) is None ==> p_call(name, g, q, at) == Err::<TermV, ErrorV>(
            ErrorV { at: Some(at), kind: ErrorKind::UnknownFunction { sqrt: name == word_sqrt() } },
        ),
{
}

/// `signpower(a, v)` takes the whole expression `a` before the comma as its
/// argument and the signed number `v` after it as its exponent.
pub proof fn law_signpower(g: Seq<Token>, q: Seq<usize>, at: Loc, a: TermV, n: nat, v: SignedV, m: nat)
    requires
        p_expr(g, q, 0) == Ok::<(TermV, nat), ErrorV>((a, n)),
        punct_at(g, n as int, ','),
        p_signed(g, q, n as int + 1) == Ok::<(SignedV, nat), ErrorV>((v, m)),
        p_finish(g, q, n + 1 + m as int) is Ok,
    ensures
        p_call(word_signpower(), g, q, at) == Ok::<TermV, ErrorV>(
            TermV::Signpower { at, arg: Box::new(a), exponent: v },
        ),
{
    assert(word_signpower() != word_sum());
    assert(word_signpower() != word_prod());
}

/// `sum(pattern in iterable, body)` and `prod(...)` read the whole
/// expression after the first comma behind `in` as the body, and keep where
/// the `in` and that comma stand.
pub proof fn law_comprehension(kind: Aggregate, g: Seq<Token>, q: Seq<usize>, at: Loc, k: nat, c: nat, b: TermV, n: nat)
    requires
        find_in(g, 0) == Some(k),
        k > 0,
        find_comma(g, k as int + 1) == Some(c),
        c != k + 1,
        c + 1 != g.len(),
        p_expr(g, q, c as int + 1) == Ok::<(TermV, nat), ErrorV>((b, n)),
        p_finish(g, q, c + 1 + n as int) is Ok,
    ensures
        p_aggregate(kind, g, q, at) == Ok::<TermV, ErrorV>(
            TermV::Aggregate { kind, at, in_pos: k, comma: c, body: Box::new(b) },
        ),
{
}

/// The comparisons are read by their spelling: `<=` as less-or-equal, `>=`
/// as greater-or-equal, and `==` or a lone `=` as equality; a lone `<` or
/// `>` is none.
pub proof fn law_relations(s: Seq<Token>, i: int)
    requires
        0 <= i < s.len(),
        s[i] is Punct,
    ensures
        s[i]->ch == '<' && s[i]->joint && punct_at(s, i + 1, '=') ==> relation_at(s, i) == Some((Relation::Le, 2nat)),
        s[i]->ch == '>' && s[i]->joint && punct_at(s, i + 1, '=') ==> relation_at(s, i) == Some((Relation::Ge, 2nat)),
        s[i]->ch == '=' && s[i]->joint && punct_at(s, i + 1, '=') ==> relation_at(s, i) == Some((Relation::Eq, 2nat)),
        s[i]->ch == '=' && !s[i]->joint ==> relation_at(s, i) == Some((Relation::Eq, 1nat)),
        (s[i]->ch == '<' || s[i]->ch == '>') && !punct_at(s, i + 1, '=') ==> relation_at(s, i) is None,
{
}

/// A constraint `lhs rel rhs` that is not of the two-sided form keeps both
/// sides and the comparison as written.
pub proof fn law_one_sided(s: Seq<Token>, p: Seq<usize>, lhs: TermV, n: nat, rel: Relation, k: nat, rhs: TermV, m: nat)
    requires
        p_chained(s, p) == Ok::<Option<ConsV>, ErrorV>(None),
        p_expr(s, p, 0) == Ok::<(TermV, nat), ErrorV>((lhs, n)),
        relation_at(s, n as int) == Some((rel, k)),
        p_expr(s, p, n + k as int) == Ok::<(TermV, nat), ErrorV>((rhs, m)),
        p_finish(s, p, n + k + m as int) is Ok,
    ensures
        p_constraint(s, p) == Ok::<ConsV, ErrorV>(ConsV::OneSided { lhs, relation: rel, rhs }),
{
}

} // verus!
