use vstd::prelude::*;
use crate::grammar::token::{Token, Delim, seq_depth, lemma_group_depth};
use crate::grammar::ast::{Loc, loc, SignedV, TermV, ErrorV, ConsV};
use crate::grammar::rules::{
    rem, punct_at, group_at, stream_of, brackets, find_in, find_comma, p_signed,
    p_try_signed, p_expr, p_expr_rest, p_term, p_term_rest, p_unary, p_power, p_atom, p_whole, p_call,
    p_aggregate, relation_at, p_chained, p_constraint, expression_of, constraint_of,
    word_sum, word_prod, word_signpower, func_of,
};

verus! {

/// The tokens of the group that is the `i`-th token of `s`, if it is one.
pub open spec fn descend(s: Option<Seq<Token>>, i: usize) -> Option<Seq<Token>> {
    match s {
        Some(t) => if i < t.len() && t[i as int] is Group {
            Some(stream_of(t[i as int]))
        } else {
            None
        },
        None => None,
    }
}

/// The stream at `path` in the input `root`, if the path leads through groups.
pub open spec fn stream_at(root: Seq<Token>, path: Seq<usize>) -> Option<Seq<Token>>
    decreases path.len(),
{
    if path.len() == 0 {
        Some(root)
    } else {
        descend(stream_at(root, path.drop_last()), path.last())
    }
}

/// Whether a token's groups, at every depth, hold no more tokens than a
/// vector can.
pub open spec fn tok_fits(t: Token) -> bool
    decreases t,
{
    match t {
        Token::Group { stream, .. } => seq_fits(stream@),
        _ => true,
    }
}

/// Whether a sequence of tokens, and the groups in it at every depth, hold
/// no more tokens than a vector can; true of the tokens of any vector.
pub open spec fn seq_fits(s: Seq<Token>) -> bool
    decreases s,
{
    s.len() <= usize::MAX && (s.len() == 0 || (tok_fits(s.last()) && seq_fits(s.drop_last())))
}

/// Each token of a sequence that fits fits.
proof fn lemma_elem_fits(s: Seq<Token>, i: int)
    requires
        seq_fits(s),
        0 <= i < s.len(),
    ensures
        tok_fits(s[i]),
    decreases s.len(),
{
    if i < s.len() - 1 {
        lemma_elem_fits(s.drop_last(), i);
        assert(s.drop_last()[i] == s[i]);
    }
}

/// Whether `l` names a token of the input `root`.
pub open spec fn names_token(root: Seq<Token>, l: Loc) -> bool {
    match stream_at(root, l.path) {
        Some(s) => 0 <= l.index < s.len(),
        None => false,
    }
}

/// Whether an error points at a token of the input, or at the macro call.
pub open spec fn error_placed(root: Seq<Token>, e: ErrorV) -> bool {
    match e.at {
        Some(l) => names_token(root, l),
        None => true,
    }
}

/// Whether a signed literal names a token of the input.
pub open spec fn signed_placed(root: Seq<Token>, v: SignedV) -> bool {
    names_token(root, v.number.at)
}

/// Whether every place in a term names a token of the input: the index
/// groups of a place, and the `in` and the comma of a comprehension too.
pub open spec fn term_placed(root: Seq<Token>, t: TermV) -> bool
    decreases t,
{
    match t {
        TermV::Add(a, b) => term_placed(root, *a) && term_placed(root, *b),
        TermV::Sub(a, b) => term_placed(root, *a) && term_placed(root, *b),
        TermV::Mul(a, b) => term_placed(root, *a) && term_placed(root, *b),
        TermV::Div(a, b) => term_placed(root, *a) && term_placed(root, *b),
        TermV::Neg(a) => term_placed(root, *a),
        TermV::Pow { base, exponent } => term_placed(root, *base) && signed_placed(root, exponent),
        TermV::Constant(n) => names_token(root, n.at),
        TermV::Place { at, brackets } => names_token(root, at) && names_token(root, loc(at.path, at.index + brackets)),
        TermV::Splice { at } => names_token(root, at),
        TermV::Call { at, arg, .. } => names_token(root, at) && term_placed(root, *arg),
        TermV::Signpower { at, arg, exponent } => names_token(root, at) && term_placed(root, *arg)
            && signed_placed(root, exponent),
        TermV::Aggregate { at, in_pos, comma, body, .. } => names_token(root, at) && term_placed(root, *body)
            && match stream_at(root, at.path.push((at.index + 1) as usize)) {
            Some(g) => in_pos < comma < g.len(),
            None => false,
        },
    }
}

/// Whether what a rule gave is placed in the input.
pub open spec fn read_placed(root: Seq<Token>, r: Result<(TermV, nat), ErrorV>) -> bool {
    match r {
        Ok((t, _)) => term_placed(root, t),
        Err(e) => error_placed(root, e),
    }
}

/// Whether a whole term or its error is placed in the input.
pub open spec fn whole_placed(root: Seq<Token>, r: Result<TermV, ErrorV>) -> bool {
    match r {
        Ok(t) => term_placed(root, t),
        Err(e) => error_placed(root, e),
    }
}

/// Whether a constraint or its error is placed in the input.
pub open spec fn cons_placed(root: Seq<Token>, r: Result<ConsV, ErrorV>) -> bool {
    match r {
        Ok(ConsV::OneSided { lhs, rhs, .. }) => term_placed(root, lhs) && term_placed(root, rhs),
        Ok(ConsV::TwoSided { body, lower, upper }) => term_placed(root, body) && signed_placed(root, lower)
            && signed_placed(root, upper),
        Err(e) => error_placed(root, e),
    }
}

/// The stream of a group is found by one more step of its path.
proof fn lemma_descend(root: Seq<Token>, s: Seq<Token>, p: Seq<usize>, i: int)
    requires
        stream_at(root, p) == Some(s),
        seq_fits(s),
        0 <= i < s.len(),
        s[i] is Group,
    ensures
        stream_at(root, p.push(i as usize)) == Some(stream_of(s[i])),
        seq_fits(stream_of(s[i])),
        p.push(i as usize).last() == i,
{
    assert(p.push(i as usize).drop_last() =~= p);
    lemma_elem_fits(s, i);
}

/// The index groups after a place stay within its stream.
proof fn lemma_brackets_bound(s: Seq<Token>, i: int)
    requires
        0 <= i,
    ensures
        i + brackets(s, i) <= s.len() || brackets(s, i) == 0,
    decreases rem(s, i),
{
    if group_at(s, i, Delim::Bracket) {
        lemma_brackets_bound(s, i + 1);
    }
}

/// A signed literal's place is a token of the input.
proof fn lemma_signed(root: Seq<Token>, s: Seq<Token>, p: Seq<usize>, i: int)
    requires
        stream_at(root, p) == Some(s),
        seq_fits(s),
        0 <= i,
    ensures
        match p_signed(s, p, i) {
            Ok((v, _)) => signed_placed(root, v),
            Err(e) => error_placed(root, e),
        },
{
}

#[verifier::spinoff_prover]
#[verifier::rlimit(50)]
proof fn lemma_expr(root: Seq<Token>, s: Seq<Token>, p: Seq<usize>, i: int)
    requires
        stream_at(root, p) == Some(s),
        seq_fits(s),
        0 <= i,
    ensures
        read_placed(root, p_expr(s, p, i)),
    decreases seq_depth(s), rem(s, i), 6nat,
{
    lemma_term(root, s, p, i);
    match p_term(s, p, i) {
        Ok((t, n)) => {
            lemma_expr_rest(root, s, p, i + n, t);
        },
        Err(_) => {},
    }
}

proof fn lemma_expr_rest(root: Seq<Token>, s: Seq<Token>, p: Seq<usize>, i: int, lhs: TermV)
    requires
        stream_at(root, p) == Some(s),
        seq_fits(s),
        0 <= i,
        term_placed(root, lhs),
    ensures
        read_placed(root, p_expr_rest(s, p, i, lhs)),
    decreases seq_depth(s), rem(s, i), 5nat,
{
    reveal(p_expr_rest);
    if punct_at(s, i, '+') || punct_at(s, i, '-') {
        lemma_term(root, s, p, i + 1);
        match p_term(s, p, i + 1) {
            Ok((r, n)) => {
                let t = if punct_at(s, i, '+') {
                    TermV::Add(Box::new(lhs), Box::new(r))
                } else {
                    TermV::Sub(Box::new(lhs), Box::new(r))
                };
                lemma_expr_rest(root, s, p, i + 1 + n, t);
            },
            Err(_) => {},
        }
    }
}

proof fn lemma_term(root: Seq<Token>, s: Seq<Token>, p: Seq<usize>, i: int)
    requires
        stream_at(root, p) == Some(s),
        seq_fits(s),
        0 <= i,
    ensures
        read_placed(root, p_term(s, p, i)),
    decreases seq_depth(s), rem(s, i), 4nat,
{
    lemma_unary(root, s, p, i);
    match p_unary(s, p, i) {
        Ok((u, n)) => {
            lemma_term_rest(root, s, p, i + n, u);
        },
        Err(_) => {},
    }
}

proof fn lemma_term_rest(root: Seq<Token>, s: Seq<Token>, p: Seq<usize>, i: int, lhs: TermV)
    requires
        stream_at(root, p) == Some(s),
        seq_fits(s),
        0 <= i,
        term_placed(root, lhs),
    ensures
        read_placed(root, p_term_rest(s, p, i, lhs)),
    decreases seq_depth(s), rem(s, i), 3nat,
{
    if punct_at(s, i, '*') || punct_at(s, i, '/') {
        lemma_unary(root, s, p, i + 1);
        match p_unary(s, p, i + 1) {
            Ok((r, n)) => {
                let t = if punct_at(s, i, '*') {
                    TermV::Mul(Box::new(lhs), Box::new(r))
                } else {
                    TermV::Div(Box::new(lhs), Box::new(r))
                };
                lemma_term_rest(root, s, p, i + 1 + n, t);
            },
            Err(_) => {},
        }
    }
}

proof fn lemma_unary(root: Seq<Token>, s: Seq<Token>, p: Seq<usize>, i: int)
    requires
        stream_at(root, p) == Some(s),
        seq_fits(s),
        0 <= i,
    ensures
        read_placed(root, p_unary(s, p, i)),
    decreases seq_depth(s), rem(s, i), 2nat,
{
    if punct_at(s, i, '-') || punct_at(s, i, '+') {
        lemma_unary(root, s, p, i + 1);
    } else {
        lemma_power(root, s, p, i);
    }
}

proof fn lemma_power(root: Seq<Token>, s: Seq<Token>, p: Seq<usize>, i: int)
    requires
        stream_at(root, p) == Some(s),
        seq_fits(s),
        0 <= i,
    ensures
        read_placed(root, p_power(s, p, i)),
    decreases seq_depth(s), rem(s, i), 1nat,
{
    lemma_atom(root, s, p, i);
    match p_atom(s, p, i) {
        Ok((b, n)) => {
            lemma_signed(root, s, p, i + n + 1);
        },
        Err(_) => {},
    }
}

proof fn lemma_atom(root: Seq<Token>, s: Seq<Token>, p: Seq<usize>, i: int)
    requires
        stream_at(root, p) == Some(s),
        seq_fits(s),
        0 <= i,
    ensures
        read_placed(root, p_atom(s, p, i)),
    decreases seq_depth(s), rem(s, i), 0nat,
{
    if i < s.len() {
        match s[i] {
            Token::Group { delim, stream } => {
                if delim == Delim::Parenthesis {
                    lemma_group_depth(s, i);
                    lemma_descend(root, s, p, i);
                    lemma_whole(root, stream@, p.push(i as usize));
                }
            },
            Token::Ident { text } => {
                if group_at(s, i + 1, Delim::Parenthesis) {
                    lemma_group_depth(s, i + 1);
                    lemma_descend(root, s, p, i + 1);
                    assert(p.push((i + 1) as usize).drop_last() =~= p);
                    lemma_call(root, text@, stream_of(s[i + 1]), p.push((i + 1) as usize), loc(p, i));
                } else {
                    lemma_brackets_bound(s, i + 1);
                }
            },
            _ => {},
        }
    }
}

proof fn lemma_whole(root: Seq<Token>, g: Seq<Token>, q: Seq<usize>)
    requires
        stream_at(root, q) == Some(g),
        seq_fits(g),
    ensures
        whole_placed(root, p_whole(g, q)),
    decreases seq_depth(g), g.len(), 7nat,
{
    lemma_expr(root, g, q, 0);
}

#[verifier::spinoff_prover]
#[verifier::rlimit(30)]
proof fn lemma_call(root: Seq<Token>, name: Seq<char>, g: Seq<Token>, q: Seq<usize>, at: Loc)
    requires
        stream_at(root, q) == Some(g),
        seq_fits(g),
        names_token(root, at),
        q.len() > 0,
        at.path == q.drop_last(),
        q.last() == at.index + 1,
    ensures
        whole_placed(root, p_call(name, g, q, at)),
    decreases seq_depth(g), g.len(), 8nat,
{
    if name == word_sum() || name == word_prod() {
        lemma_aggregate(root, if name == word_sum() { crate::grammar::ast::Aggregate::Sum } else { crate::grammar::ast::Aggregate::Prod }, g, q, at);
    } else if name == word_signpower() {
        lemma_expr(root, g, q, 0);
        match p_expr(g, q, 0) {
            Ok((a, n)) => {
                lemma_signed(root, g, q, n as int + 1);
            },
            Err(_) => {},
        }
    } else if func_of(name) is Some {
        lemma_whole(root, g, q);
    }
}

proof fn lemma_aggregate(root: Seq<Token>, kind: crate::grammar::ast::Aggregate, g: Seq<Token>, q: Seq<usize>, at: Loc)
    requires
        stream_at(root, q) == Some(g),
        seq_fits(g),
        names_token(root, at),
        q.len() > 0,
        at.path == q.drop_last(),
        q.last() == at.index + 1,
    ensures
        whole_placed(root, p_aggregate(kind, g, q, at)),
    decreases seq_depth(g), g.len(), 7nat,
{
    assert(at.path.push((at.index + 1) as usize) =~= q);
    match find_in(g, 0) {
        Some(k) => {
            match find_comma(g, k as int + 1) {
                Some(c) => {
                    lemma_find_comma_bound(g, k as int + 1);
                    lemma_expr(root, g, q, c as int + 1);
                },
                None => {},
            }
        },
        None => {},
    }
}

/// A comma found from index `k` on stands at `k` or after it, within the stream.
proof fn lemma_find_comma_bound(g: Seq<Token>, k: int)
    ensures
        find_comma(g, k) matches Some(c) ==> k <= c < g.len(),
    decreases rem(g, k),
{
    if 0 <= k < g.len() && !punct_at(g, k, ',') {
        lemma_find_comma_bound(g, k + 1);
    }
}

/// The two-sided form reads placed terms and reports placed errors.
proof fn lemma_chained(s: Seq<Token>)
    requires
        seq_fits(s),
    ensures
        match p_chained(s, Seq::<usize>::empty()) {
            Ok(Some(c)) => cons_placed(s, Ok(c)),
            Ok(None) => true,
            Err(e) => error_placed(s, e),
        },
{
    let p = Seq::<usize>::empty();
    assert(stream_at(s, p) == Some(s));
    lemma_signed(s, s, p, 0);
    match p_try_signed(s, p, 0) {
        Some((lo, a)) => match relation_at(s, a as int) {
            Some((first, b)) => {
                lemma_expr(s, s, p, a + b as int);
                match p_expr(s, p, a + b as int) {
                    Ok((ex, n)) => {
                        let j = a + b + n as int;
                        match relation_at(s, j) {
                            Some((second, d)) => {
                                lemma_signed(s, s, p, j + d as int);
                            },
                            None => {},
                        }
                    },
                    Err(_) => {},
                }
            },
            None => {},
        },
        None => {},
    }
}

/// A whole constraint reads placed terms and reports placed errors.
proof fn lemma_constraint(s: Seq<Token>)
    requires
        seq_fits(s),
    ensures
        cons_placed(s, p_constraint(s, Seq::<usize>::empty())),
{
    let p = Seq::<usize>::empty();
    assert(stream_at(s, p) == Some(s));
    lemma_chained(s);
    lemma_expr(s, s, p, 0);
    match p_expr(s, p, 0) {
        Ok((lhs, n)) => match relation_at(s, n as int) {
            Some((c, k)) => {
                lemma_expr(s, s, p, n + k as int);
            },
            None => {},
        },
        Err(_) => {},
    }
}

/// Every place the grammar reports names a token of its input: the token an
/// error points at, and each token that a term or a constraint it read
/// refers to (a literal, a name and its index groups, a spliced or called
/// group, the `in` and the comma of a comprehension).
pub proof fn law_reads_are_placed_in_their_input(s: Seq<Token>)
    requires
        seq_fits(s),
    ensures
        whole_placed(s, expression_of(s)),
        cons_placed(s, constraint_of(s)),
{
    let p = Seq::<usize>::empty();
    assert(stream_at(s, p) == Some(s));
    lemma_whole(s, s, p);
    lemma_constraint(s);
}

} // verus!
