use vstd::prelude::*;
use crate::grammar::token::{Token, Delim, seq_depth, lemma_group_depth};
use crate::grammar::numeral::numeral;
use crate::grammar::ast::{
    Addr, loc, Func, Aggregate, Relation, Number, Signed, Term, TermV, ErrorKind, ParseError,
    ErrorV, ConsForm, ConsV,
};
use crate::grammar::rules::{
    rem, punct_at, group_at, ident_at, stream_of, word_sum, word_prod, word_signpower, word_sqrt,
    word_in, func_of, brackets, find_in, find_comma, p_finish, p_number, p_signed, p_try_signed,
    p_expr, p_expr_rest, p_term, p_term_rest, p_unary, p_power, p_atom, p_whole, p_call,
    p_aggregate, relation_at, relation_error, p_chained, p_constraint, expression_of,
    constraint_of, shifted, lemma_expr_rest_step,
};

verus! {

/// A rule's result that ends at token `j` against what the rule gives from
/// token `i` on: the same value, and `j - i` tokens taken.
pub open spec fn ends_as<T: View>(
    r: Result<(T, usize), ParseError>,
    i: int,
    len: int,
    spec: Result<(T::V, nat), ErrorV>,
) -> bool {
    match r {
        Ok((t, j)) => i <= j <= len && spec == Ok::<(T::V, nat), ErrorV>((t@, (j - i) as nat)),
        Err(e) => spec == Err::<(T::V, nat), ErrorV>(e@),
    }
}

/// A result against the value the rules give.
pub open spec fn gives<T: View>(r: Result<T, ParseError>, spec: Result<T::V, ErrorV>) -> bool {
    match r {
        Ok(t) => spec == Ok::<T::V, ErrorV>(t@),
        Err(e) => spec == Err::<T::V, ErrorV>(e@),
    }
}

/// Whether `t` is the word `w`.
fn is_word(t: &Vec<char>, w: &[char]) -> (b: bool)
    ensures
        b == (t@ == w@),
{
    if t.len() != w.len() {
        return false;
    }
    let mut i: usize = 0;
    while i < w.len()
        invariant
            i <= w.len() == t.len(),
            forall|j: int| 0 <= j < i ==> t@[j] == w@[j],
        decreases w.len() - i,
    {
        if t[i] != w[i] {
            return false;
        }
        i = i + 1;
    }
    assert(t@ =~= w@);
    true
}

/// The unary function `name` calls, if it is one of them.
fn func_named(name: &Vec<char>) -> (f: Option<Func>)
    ensures
        f == func_of(name@),
{
    let exp: [char; 3] = ['e', 'x', 'p'];
    let log: [char; 3] = ['l', 'o', 'g'];
    let sin: [char; 3] = ['s', 'i', 'n'];
    let cos: [char; 3] = ['c', 'o', 's'];
    let abs: [char; 3] = ['a', 'b', 's'];
    let entropy: [char; 7] = ['e', 'n', 't', 'r', 'o', 'p', 'y'];
    proof {
        assert(exp@ == seq!['e', 'x', 'p']);
        assert(log@ == seq!['l', 'o', 'g']);
        assert(sin@ == seq!['s', 'i', 'n']);
        assert(cos@ == seq!['c', 'o', 's']);
        assert(abs@ == seq!['a', 'b', 's']);
        assert(entropy@ == seq!['e', 'n', 't', 'r', 'o', 'p', 'y']);
    }
    if is_word(name, &exp) {
        Some(Func::Exp)
    } else if is_word(name, &log) {
        Some(Func::Log)
    } else if is_word(name, &sin) {
        Some(Func::Sin)
    } else if is_word(name, &cos) {
        Some(Func::Cos)
    } else if is_word(name, &abs) {
        Some(Func::Abs)
    } else if is_word(name, &entropy) {
        Some(Func::Entropy)
    } else {
        None
    }
}

/// A reader over one token stream: the tokens, and the place of the stream.
pub struct Parser<'a> {
    pub toks: &'a Vec<Token>,
    pub path: Vec<usize>,
}

impl<'a> Parser<'a> {
    /// A reader over a whole input.
    pub fn new(toks: &'a Vec<Token>) -> (p: Parser<'a>)
        ensures
            p.toks@ == toks@,
            p.path@ == Seq::<usize>::empty(),
    {
        Parser { toks, path: Vec::new() }
    }

    /// The place of the `i`-th token.
    fn here(&self, i: usize) -> (a: Addr)
        ensures
            a@ == loc(self.path@, i as int),
    {
        let mut path: Vec<usize> = Vec::new();
        let mut k: usize = 0;
        while k < self.path.len()
            invariant
                k <= self.path.len(),
                path@ == self.path@.take(k as int),
            decreases self.path.len() - k,
        {
            path.push(self.path[k]);
            k = k + 1;
            assert(path@ =~= self.path@.take(k as int));
        }
        assert(path@ =~= self.path@);
        Addr { path, index: i }
    }

    /// An error at the `i`-th token.
    fn error_at(&self, i: usize, kind: ErrorKind) -> (e: ParseError)
        ensures
            e@ == (ErrorV { at: Some(loc(self.path@, i as int)), kind }),
    {
        ParseError { at: Some(self.here(i)), kind }
    }

    /// The place of the group that is the `i`-th token.
    fn child_path(&self, i: usize) -> (q: Vec<usize>)
        ensures
            q@ == self.path@.push(i),
    {
        let a = self.here(i);
        let mut q = a.path;
        q.push(i);
        q
    }

    /// Whether the `i`-th token is the punctuation character `c`.
    fn is_punct(&self, i: usize, c: char) -> (b: bool)
        ensures
            b == punct_at(self.toks@, i as int, c),
    {
        if i < self.toks.len() {
            match &self.toks[i] {
                Token::Punct { ch, .. } => *ch == c,
                _ => false,
            }
        } else {
            false
        }
    }

    /// The tokens of the `i`-th token if it is a group with delimiter `d`.
    fn group(&self, i: usize, d: Delim) -> (g: Option<&'a Vec<Token>>)
        ensures
            match g {
                Some(g) => group_at(self.toks@, i as int, d) && g@ == stream_of(self.toks@[i as int]),
                None => !group_at(self.toks@, i as int, d),
            },
    {
        let toks: &'a Vec<Token> = self.toks;
        if i < toks.len() {
            match &toks[i] {
                Token::Group { delim, stream } => {
                    if *delim == d {
                        Some(stream)
                    } else {
                        None
                    }
                },
                _ => None,
            }
        } else {
            None
        }
    }

    /// Whether the `i`-th token is the identifier `in`.
    fn is_in(&self, i: usize) -> (b: bool)
        ensures
            b == ident_at(self.toks@, i as int, word_in()),
    {
        let w: [char; 2] = ['i', 'n'];
        assert(w@ == word_in());
        if i < self.toks.len() {
            match &self.toks[i] {
                Token::Ident { text } => is_word(text, &w),
                _ => false,
            }
        } else {
            false
        }
    }

    /// The end of what was read: no token may follow.
    fn finish(&self, i: usize) -> (r: Result<(), ParseError>)
        ensures
            match r {
                Ok(_) => p_finish(self.toks@, self.path@, i as int) == Ok::<(), ErrorV>(()),
                Err(e) => p_finish(self.toks@, self.path@, i as int) == Err::<(), ErrorV>(e@),
            },
    {
        if i < self.toks.len() {
            Err(self.error_at(i, ErrorKind::TrailingToken))
        } else {
            Ok(())
        }
    }

    /// A numeric literal at the `i`-th token.
    fn number(&self, i: usize) -> (r: Result<Number, ParseError>)
        ensures
            gives(r, p_number(self.toks@, self.path@, i as int)),
    {
        if i >= self.toks.len() {
            return Err(ParseError { at: None, kind: ErrorKind::ExpectedNumber });
        }
        match &self.toks[i] {
            Token::Literal { text } => match numeral(text) {
                Some(n) => Ok(Number { numeral: n, at: self.here(i) }),
                None => Err(self.error_at(i, ErrorKind::NotNumeric)),
            },
            _ => Err(self.error_at(i, ErrorKind::ExpectedNumber)),
        }
    }

    /// An optionally signed numeric literal from the `i`-th token on.
    fn signed_number(&self, i: usize) -> (r: Result<(Signed, usize), ParseError>)
        requires
            i <= self.toks.len(),
        ensures
            ends_as(r, i as int, self.toks.len() as int, p_signed(self.toks@, self.path@, i as int)),
    {
        let neg = self.is_punct(i, '-');
        if neg || self.is_punct(i, '+') {
            match self.number(i + 1) {
                Ok(n) => Ok((Signed { negative: neg, number: n }, i + 2)),
                Err(e) => Err(e),
            }
        } else {
            match self.number(i) {
                Ok(n) => Ok((Signed { negative: false, number: n }, i + 1)),
                Err(e) => Err(e),
            }
        }
    }

    /// Like `signed_number`, but nothing is taken where no signed literal stands.
    fn try_signed_number(&self, i: usize) -> (r: Option<(Signed, usize)>)
        requires
            i <= self.toks.len(),
        ensures
            match r {
                Some((v, j)) => i <= j <= self.toks.len() && p_try_signed(self.toks@, self.path@, i as int)
                    == Some((v@, (j - i) as nat)),
                None => p_try_signed(self.toks@, self.path@, i as int) is None,
            },
    {
        match self.signed_number(i) {
            Ok(v) => Some(v),
            Err(_) => None,
        }
    }

    /// The end of an identifier's index groups, which start at the `i`-th token.
    fn place(&self, i: usize) -> (j: usize)
        requires
            i <= self.toks.len(),
        ensures
            j == i + brackets(self.toks@, i as int),
            j <= self.toks.len(),
    {
        let mut j = i;
        while j < self.toks.len() && self.group(j, Delim::Bracket).is_some()
            invariant
                i <= j <= self.toks.len(),
                brackets(self.toks@, i as int) == (j - i) + brackets(self.toks@, j as int),
            decreases self.toks.len() - j,
        {
            j = j + 1;
        }
        j
    }

    /// `expr := term (('+' | '-') term)*`
    #[verifier::spinoff_prover]
    #[verifier::rlimit(50)]
    fn expr(&self, i: usize) -> (r: Result<(Term, usize), ParseError>)
        requires
            i <= self.toks.len(),
        ensures
            ends_as(r, i as int, self.toks.len() as int, p_expr(self.toks@, self.path@, i as int)),
        decreases seq_depth(self.toks@), rem(self.toks@, i as int), 6nat,
    {
        let (mut lhs, mut j) = match self.term(i) {
            Ok(x) => x,
            Err(e) => return Err(e),
        };
        loop
            invariant
                i <= j <= self.toks.len(),
                p_expr(self.toks@, self.path@, i as int) == shifted(
                    p_expr_rest(self.toks@, self.path@, j as int, lhs@),
                    (j - i) as nat,
                ),
            decreases self.toks.len() - j,
        {
            if self.is_punct(j, '+') || self.is_punct(j, '-') {
                let (t, k) = match self.expr_step(lhs, j) {
                    Ok(x) => x,
                    Err(e) => return Err(e),
                };
                lhs = t;
                j = k;
            } else {
                proof {
                    lemma_expr_rest_step(self.toks@, self.path@, j as int, lhs@);
                }
                return Ok((lhs, j));
            }
        }
    }

    /// One `('+' | '-') term` of an expression whose first terms read as
    /// `lhs`, the operator at the `j`-th token.
    #[verifier::spinoff_prover]
    #[verifier::rlimit(50)]
    fn expr_step(&self, lhs: Term, j: usize) -> (r: Result<(Term, usize), ParseError>)
        requires
            j < self.toks.len(),
            punct_at(self.toks@, j as int, '+') || punct_at(self.toks@, j as int, '-'),
        ensures
            match r {
                Ok((t, k)) => j < k <= self.toks.len() && p_expr_rest(self.toks@, self.path@, j as int, lhs@)
                    == shifted(p_expr_rest(self.toks@, self.path@, k as int, t@), (k - j) as nat),
                Err(e) => p_expr_rest(self.toks@, self.path@, j as int, lhs@) == Err::<(TermV, nat), ErrorV>(e@),
            },
        decreases seq_depth(self.toks@), rem(self.toks@, j as int), 5nat,
    {
        proof {
            lemma_expr_rest_step(self.toks@, self.path@, j as int, lhs@);
        }
        let plus = self.is_punct(j, '+');
        match self.term(j + 1) {
            Ok((r, k)) => {
                let t = if plus {
                    Term::Add(Box::new(lhs), Box::new(r))
                } else {
                    Term::Sub(Box::new(lhs), Box::new(r))
                };
                Ok((t, k))
            },
            Err(e) => Err(e),
        }
    }

    /// `term := unary (('*' | '/') unary)*`
    #[verifier::spinoff_prover]
    #[verifier::rlimit(50)]
    fn term(&self, i: usize) -> (r: Result<(Term, usize), ParseError>)
        requires
            i <= self.toks.len(),
        ensures
            ends_as(r, i as int, self.toks.len() as int, p_term(self.toks@, self.path@, i as int)),
        decreases seq_depth(self.toks@), rem(self.toks@, i as int), 4nat,
    {
        let (mut lhs, mut j) = match self.unary(i) {
            Ok(x) => x,
            Err(e) => return Err(e),
        };
        loop
            invariant
                i <= j <= self.toks.len(),
                p_term(self.toks@, self.path@, i as int) == shifted(
                    p_term_rest(self.toks@, self.path@, j as int, lhs@),
                    (j - i) as nat,
                ),
            decreases self.toks.len() - j,
        {
            let times = self.is_punct(j, '*');
            if times || self.is_punct(j, '/') {
                let (r, k) = match self.unary(j + 1) {
                    Ok(x) => x,
                    Err(e) => return Err(e),
                };
                lhs = if times {
                    Term::Mul(Box::new(lhs), Box::new(r))
                } else {
                    Term::Div(Box::new(lhs), Box::new(r))
                };
                j = k;
            } else {
                return Ok((lhs, j));
            }
        }
    }

    /// `unary := ('-' | '+')* power`
    #[verifier::spinoff_prover]
    #[verifier::rlimit(50)]
    fn unary(&self, i: usize) -> (r: Result<(Term, usize), ParseError>)
        requires
            i <= self.toks.len(),
        ensures
            ends_as(r, i as int, self.toks.len() as int, p_unary(self.toks@, self.path@, i as int)),
        decreases seq_depth(self.toks@), rem(self.toks@, i as int), 2nat,
    {
        let minus = self.is_punct(i, '-');
        if minus || self.is_punct(i, '+') {
            match self.unary(i + 1) {
                Ok((e, j)) => if minus {
                    Ok((Term::Neg(Box::new(e)), j))
                } else {
                    Ok((e, j))
                },
                Err(e) => Err(e),
            }
        } else {
            self.power(i)
        }
    }

    /// `power := atom ('^' signed-number)?`
    #[verifier::spinoff_prover]
    #[verifier::rlimit(50)]
    fn power(&self, i: usize) -> (r: Result<(Term, usize), ParseError>)
        requires
            i <= self.toks.len(),
        ensures
            ends_as(r, i as int, self.toks.len() as int, p_power(self.toks@, self.path@, i as int)),
        decreases seq_depth(self.toks@), rem(self.toks@, i as int), 1nat,
    {
        match self.atom(i) {
            Ok((base, j)) => if self.is_punct(j, '^') {
                match self.signed_number(j + 1) {
                    Ok((v, k)) => Ok((Term::Pow { base: Box::new(base), exponent: v }, k)),
                    Err(e) => Err(e),
                }
            } else {
                Ok((base, j))
            },
            Err(e) => Err(e),
        }
    }

    /// `atom := number | place | call | comprehension | '(' expr ')' | '{' rust '}'`
    #[verifier::spinoff_prover]
    #[verifier::rlimit(50)]
    fn atom(&self, i: usize) -> (r: Result<(Term, usize), ParseError>)
        requires
            i <= self.toks.len(),
        ensures
            ends_as(r, i as int, self.toks.len() as int, p_atom(self.toks@, self.path@, i as int)),
        decreases seq_depth(self.toks@), rem(self.toks@, i as int), 0nat,
    {
        let toks: &'a Vec<Token> = self.toks;
        if i >= toks.len() {
            return Err(ParseError { at: None, kind: ErrorKind::UnexpectedEnd });
        }
        match &toks[i] {
            Token::Group { delim, stream } => {
                if *delim == Delim::Brace {
                    Ok((Term::Splice { at: self.here(i) }, i + 1))
                } else if *delim == Delim::Parenthesis {
                    proof {
                        lemma_group_depth(self.toks@, i as int);
                    }
                    let inner = Parser { toks: stream, path: self.child_path(i) };
                    match inner.whole() {
                        Ok(e) => Ok((e, i + 1)),
                        Err(e) => Err(e),
                    }
                } else {
                    Err(self.error_at(i, ErrorKind::UnexpectedToken))
                }
            },
            Token::Ident { text } => {
                match self.group(i + 1, Delim::Parenthesis) {
                    Some(g) => {
                        proof {
                            lemma_group_depth(self.toks@, i + 1);
                        }
                        let inner = Parser { toks: g, path: self.child_path(i + 1) };
                        match inner.call(text, self.here(i)) {
                            Ok(t) => Ok((t, i + 2)),
                            Err(e) => Err(e),
                        }
                    },
                    None => {
                        let j = self.place(i + 1);
                        Ok((Term::Place { at: self.here(i), brackets: j - (i + 1) }, j))
                    },
                }
            },
            Token::Literal { text } => match numeral(text) {
                Some(n) => Ok((Term::Constant(Number { numeral: n, at: self.here(i) }), i + 1)),
                None => Err(self.error_at(i, ErrorKind::NotNumeric)),
            },
            Token::Punct { .. } => Err(self.error_at(i, ErrorKind::UnexpectedToken)),
        }
    }

    /// The whole stream read as one expression, nothing after it.
    #[verifier::spinoff_prover]
    #[verifier::rlimit(50)]
    fn whole(&self) -> (r: Result<Term, ParseError>)
        ensures
            gives(r, p_whole(self.toks@, self.path@)),
        decreases seq_depth(self.toks@), self.toks@.len(), 7nat,
    {
        match self.expr(0) {
            Ok((e, j)) => match self.finish(j) {
                Ok(_) => Ok(e),
                Err(x) => Err(x),
            },
            Err(x) => Err(x),
        }
    }

    /// The call of `name`, placed at `at`, on this stream: the tokens of the
    /// group that follows the name.
    #[verifier::spinoff_prover]
    #[verifier::rlimit(50)]
    fn call(&self, name: &Vec<char>, at: Addr) -> (r: Result<Term, ParseError>)
        ensures
            gives(r, p_call(name@, self.toks@, self.path@, at@)),
        decreases seq_depth(self.toks@), self.toks@.len(), 8nat,
    {
        let sum: [char; 3] = ['s', 'u', 'm'];
        let prod: [char; 4] = ['p', 'r', 'o', 'd'];
        let signpower: [char; 9] = ['s', 'i', 'g', 'n', 'p', 'o', 'w', 'e', 'r'];
        let sqrt: [char; 4] = ['s', 'q', 'r', 't'];
        proof {
            assert(sum@ == word_sum());
            assert(prod@ == word_prod());
            assert(signpower@ == word_signpower());
            assert(sqrt@ == word_sqrt());
        }
        if is_word(name, &sum) {
            self.comprehension(Aggregate::Sum, at)
        } else if is_word(name, &prod) {
            self.comprehension(Aggregate::Prod, at)
        } else if is_word(name, &signpower) {
            match self.expr(0) {
                Ok((arg, n)) => if self.is_punct(n, ',') {
                    match self.signed_number(n + 1) {
                        Ok((v, m)) => match self.finish(m) {
                            Ok(_) => Ok(Term::Signpower { at, arg: Box::new(arg), exponent: v }),
                            Err(e) => Err(e),
                        },
                        Err(e) => Err(e),
                    }
                } else {
                    Err(ParseError { at: Some(at), kind: ErrorKind::SignpowerArity })
                },
                Err(e) => Err(e),
            }
        } else {
            match func_named(name) {
                Some(f) => match self.whole() {
                    Ok(arg) => Ok(Term::Call { func: f, at, arg: Box::new(arg) }),
                    Err(e) => Err(e),
                },
                None => {
                    let is_sqrt = is_word(name, &sqrt);
                    Err(ParseError { at: Some(at), kind: ErrorKind::UnknownFunction { sqrt: is_sqrt } })
                },
            }
        }
    }

    /// `sum(pattern in iterable, body)` and `prod` likewise, on this stream:
    /// the tokens of the group that follows the name placed at `at`.
    #[verifier::spinoff_prover]
    #[verifier::rlimit(50)]
    fn comprehension(&self, kind: Aggregate, at: Addr) -> (r: Result<Term, ParseError>)
        ensures
            gives(r, p_aggregate(kind, self.toks@, self.path@, at@)),
        decreases seq_depth(self.toks@), self.toks@.len(), 7nat,
    {
        let len = self.toks.len();
        let mut k: usize = 0;
        while k < len && !self.is_in(k)
            invariant
                k <= len == self.toks.len(),
                find_in(self.toks@, 0) == find_in(self.toks@, k as int),
            decreases len - k,
        {
            k = k + 1;
        }
        if k == len || k == 0 {
            return Err(ParseError { at: Some(at), kind: ErrorKind::ComprehensionUsage { kind } });
        }
        let mut c: usize = k + 1;
        while c < len && !self.is_punct(c, ',')
            invariant
                k < c <= len == self.toks.len(),
                find_comma(self.toks@, k + 1) == find_comma(self.toks@, c as int),
            decreases len - c,
        {
            c = c + 1;
        }
        if c == len || c == k + 1 || c + 1 == len {
            return Err(ParseError { at: Some(at), kind: ErrorKind::ComprehensionUsage { kind } });
        }
        match self.expr(c + 1) {
            Ok((body, n)) => match self.finish(n) {
                Ok(_) => Ok(Term::Aggregate { kind, at, in_pos: k, comma: c, body: Box::new(body) }),
                Err(e) => Err(e),
            },
            Err(e) => Err(e),
        }
    }

    /// A comparison at the `i`-th token, and where it ends.
    fn eat_relation(&self, i: usize) -> (r: Option<(Relation, usize)>)
        requires
            i <= self.toks.len(),
        ensures
            match r {
                Some((c, j)) => i <= j <= self.toks.len() && relation_at(self.toks@, i as int) == Some(
                    (c, (j - i) as nat),
                ),
                None => relation_at(self.toks@, i as int) is None,
            },
    {
        if i >= self.toks.len() {
            return None;
        }
        let (c, joint) = match &self.toks[i] {
            Token::Punct { ch, joint } => (*ch, *joint),
            _ => return None,
        };
        let then_eq = self.is_punct(i + 1, '=');
        if (c == '<' || c == '>') && joint && then_eq {
            Some((if c == '<' { Relation::Le } else { Relation::Ge }, i + 2))
        } else if c == '=' && joint && then_eq {
            Some((Relation::Eq, i + 2))
        } else if c == '=' && !joint {
            Some((Relation::Eq, i + 1))
        } else {
            None
        }
    }

    /// The error to report where a comparison was expected at the `i`-th token.
    fn relation_error(&self, i: usize) -> (e: ParseError)
        ensures
            e@ == relation_error(self.toks@, self.path@, i as int),
    {
        if i < self.toks.len() {
            if self.is_punct(i, '<') || self.is_punct(i, '>') {
                self.error_at(i, ErrorKind::StrictComparison)
            } else {
                self.error_at(i, ErrorKind::ExpectedComparison)
            }
        } else {
            ParseError { at: None, kind: ErrorKind::ExpectedComparison }
        }
    }
}

/// The two-sided form `lo rel expr rel hi`, where both comparisons are `<=`
/// or both `>=`: `None`, with nothing taken, where the input is not of that
/// shape.
#[verifier::spinoff_prover]
#[verifier::rlimit(50)]
fn try_chained(p: &Parser) -> (r: Result<Option<ConsForm>, ParseError>)
    ensures
        match r {
            Ok(Some(c)) => p_chained(p.toks@, p.path@) == Ok::<Option<ConsV>, ErrorV>(Some(c@)),
            Ok(None) => p_chained(p.toks@, p.path@) == Ok::<Option<ConsV>, ErrorV>(None),
            Err(e) => p_chained(p.toks@, p.path@) == Err::<Option<ConsV>, ErrorV>(e@),
        },
{
    let (lo, a) = match p.try_signed_number(0) {
        Some(x) => x,
        None => return Ok(None),
    };
    let (first, b) = match p.eat_relation(a) {
        Some((c, b)) => {
            if c == Relation::Eq {
                return Ok(None);
            }
            (c, b)
        },
        None => return Ok(None),
    };
    let (ex, j) = match p.expr(b) {
        Ok(x) => x,
        Err(_) => return Ok(None),
    };
    let (second, d) = match p.eat_relation(j) {
        Some(x) => x,
        None => return Ok(None),
    };
    if second != first {
        return Err(p.error_at(j, ErrorKind::MixedDirections));
    }
    let (hi, e) = match p.try_signed_number(d) {
        Some(x) => x,
        None => {
            if d < p.toks.len() {
                return Err(p.error_at(d, ErrorKind::NonLiteralBound));
            } else {
                return Err(ParseError { at: None, kind: ErrorKind::NonLiteralBound });
            }
        },
    };
    match p.finish(e) {
        Err(x) => Err(x),
        Ok(_) => {
            if second == Relation::Le {
                Ok(Some(ConsForm::TwoSided { body: ex, lower: lo, upper: hi }))
            } else {
                Ok(Some(ConsForm::TwoSided { body: ex, lower: hi, upper: lo }))
            }
        },
    }
}

/// A whole constraint: the two-sided form, or `expr rel expr`.
#[verifier::spinoff_prover]
#[verifier::rlimit(50)]
pub fn parse_constraint(toks: &Vec<Token>) -> (r: Result<ConsForm, ParseError>)
    ensures
        gives(r, p_constraint(toks@, Seq::<usize>::empty())),
{
    let p = Parser::new(toks);
    match try_chained(&p) {
        Err(e) => return Err(e),
        Ok(Some(c)) => return Ok(c),
        Ok(None) => {},
    }
    let (lhs, n) = match p.expr(0) {
        Ok(x) => x,
        Err(e) => return Err(e),
    };
    let (c, k) = match p.eat_relation(n) {
        Some(x) => x,
        None => return Err(p.relation_error(n)),
    };
    let (rhs, m) = match p.expr(k) {
        Ok(x) => x,
        Err(e) => return Err(e),
    };
    match p.finish(m) {
        Err(e) => Err(e),
        Ok(_) => Ok(ConsForm::OneSided { lhs, relation: c, rhs }),
    }
}

/// Reads the input of the expression macro: a whole expression, which must
/// not be empty.
pub fn expr(toks: &Vec<Token>) -> (r: Result<Term, ParseError>)
    ensures
        gives(r, expression_of(toks@)),
{
    if toks.len() == 0 {
        return Err(ParseError { at: None, kind: ErrorKind::EmptyExpression });
    }
    Parser::new(toks).whole()
}

/// Reads the input of the constraint macro: a whole constraint, which must
/// not be empty.
pub fn cons(toks: &Vec<Token>) -> (r: Result<ConsForm, ParseError>)
    ensures
        gives(r, constraint_of(toks@)),
{
    if toks.len() == 0 {
        return Err(ParseError { at: None, kind: ErrorKind::EmptyConstraint });
    }
    parse_constraint(toks)
}

} // verus!
