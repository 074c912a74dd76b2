use vstd::prelude::*;

verus! {

/// Where a token stands: the indices of the groups that enclose it, from the
/// outermost in, and its index within the innermost one.
#[derive(Debug, Clone, PartialEq, Eq)]
pub struct Addr {
    pub path: Vec<usize>,
    pub index: usize,
}

/// The mathematical value of an [`Addr`].
pub struct Loc {
    pub path: Seq<usize>,
    pub index: int,
}

/// The place of the `i`-th token of the stream at `path`.
pub open spec fn loc(path: Seq<usize>, i: int) -> Loc {
    Loc { path, index: i }
}

impl View for Addr {
    type V = Loc;

    open spec fn view(&self) -> Loc {
        loc(self.path@, self.index as int)
    }
}

/// The unary functions SCIP has an expression handler for.
#[derive(Debug, Clone, Copy, PartialEq, Eq, Structural)]
pub enum Func {
    Exp,
    Log,
    Sin,
    Cos,
    Abs,
    Entropy,
}

/// The two comprehensions: a sum and a product over an iterator.
#[derive(Debug, Clone, Copy, PartialEq, Eq, Structural)]
pub enum Aggregate {
    Sum,
    Prod,
}

/// A comparison of a constraint.
#[derive(Debug, Clone, Copy, PartialEq, Eq, Structural)]
pub enum Relation {
    Le,
    Ge,
    Eq,
}

/// A numeric literal: the decimal numeral it stands for, and where it stands.
#[derive(Debug, PartialEq, Eq)]
pub struct Number {
    pub numeral: Vec<char>,
    pub at: Addr,
}

/// A numeric literal with an optional sign before it.
#[derive(Debug, PartialEq, Eq)]
pub struct Signed {
    pub negative: bool,
    pub number: Number,
}

/// An expression, as the grammar reads it.
#[derive(Debug, PartialEq, Eq)]
pub enum Term {
    /// `a + b`
    Add(Box<Term>, Box<Term>),
    /// `a - b`
    Sub(Box<Term>, Box<Term>),
    /// `a * b`
    Mul(Box<Term>, Box<Term>),
    /// `a / b`
    Div(Box<Term>, Box<Term>),
    /// `-a`
    Neg(Box<Term>),
    /// `a ^ n`, with a literal exponent.
    Pow { base: Box<Term>, exponent: Signed },
    /// A numeric literal.
    Constant(Number),
    /// An identifier at `at`, followed by `brackets` index groups.
    Place { at: Addr, brackets: usize },
    /// A `{ .. }` group at `at`, whose Rust value is spliced in.
    Splice { at: Addr },
    /// `f(arg)` for one of the unary functions; `at` is the name's place.
    Call { func: Func, at: Addr, arg: Box<Term> },
    /// `signpower(arg, n)`; `at` is the name's place.
    Signpower { at: Addr, arg: Box<Term>, exponent: Signed },
    /// `sum(pattern in iterable, body)` or `prod(..)`; `at` is the name's
    /// place, the group follows it, and `in_pos` and `comma` are the indices
    /// of `in` and of the comma in that group.
    Aggregate { kind: Aggregate, at: Addr, in_pos: usize, comma: usize, body: Box<Term> },
}

/// The mathematical value of a [`Number`].
pub struct NumberV {
    pub numeral: Seq<char>,
    pub at: Loc,
}

/// The mathematical value of a [`Signed`].
pub struct SignedV {
    pub negative: bool,
    pub number: NumberV,
}

/// The mathematical value of a [`Term`].
pub enum TermV {
    Add(Box<TermV>, Box<TermV>),
    Sub(Box<TermV>, Box<TermV>),
    Mul(Box<TermV>, Box<TermV>),
    Div(Box<TermV>, Box<TermV>),
    Neg(Box<TermV>),
    Pow { base: Box<TermV>, exponent: SignedV },
    Constant(NumberV),
    Place { at: Loc, brackets: nat },
    Splice { at: Loc },
    Call { func: Func, at: Loc, arg: Box<TermV> },
    Signpower { at: Loc, arg: Box<TermV>, exponent: SignedV },
    Aggregate { kind: Aggregate, at: Loc, in_pos: nat, comma: nat, body: Box<TermV> },
}

impl View for Number {
    type V = NumberV;

    open spec fn view(&self) -> NumberV {
        NumberV { numeral: self.numeral@, at: self.at@ }
    }
}

impl View for Signed {
    type V = SignedV;

    open spec fn view(&self) -> SignedV {
        SignedV { negative: self.negative, number: self.number@ }
    }
}

/// The mathematical value of a term.
pub open spec fn term_view(t: Term) -> TermV
    decreases t,
{
    match t {
        Term::Add(a, b) => TermV::Add(Box::new(term_view(*a)), Box::new(term_view(*b))),
        Term::Sub(a, b) => TermV::Sub(Box::new(term_view(*a)), Box::new(term_view(*b))),
        Term::Mul(a, b) => TermV::Mul(Box::new(term_view(*a)), Box::new(term_view(*b))),
        Term::Div(a, b) => TermV::Div(Box::new(term_view(*a)), Box::new(term_view(*b))),
        Term::Neg(a) => TermV::Neg(Box::new(term_view(*a))),
        Term::Pow { base, exponent } => TermV::Pow {
            base: Box::new(term_view(*base)),
            exponent: exponent@,
        },
        Term::Constant(n) => TermV::Constant(n@),
        Term::Place { at, brackets } => TermV::Place { at: at@, brackets: brackets as nat },
        Term::Splice { at } => TermV::Splice { at: at@ },
        Term::Call { func, at, arg } => TermV::Call { func, at: at@, arg: Box::new(term_view(*arg)) },
        Term::Signpower { at, arg, exponent } => TermV::Signpower {
            at: at@,
            arg: Box::new(term_view(*arg)),
            exponent: exponent@,
        },
        Term::Aggregate { kind, at, in_pos, comma, body } => TermV::Aggregate {
            kind,
            at: at@,
            in_pos: in_pos as nat,
            comma: comma as nat,
            body: Box::new(term_view(*body)),
        },
    }
}

impl View for Term {
    type V = TermV;

    open spec fn view(&self) -> TermV {
        term_view(*self)
    }
}

/// What went wrong in reading an expression or a constraint.
#[derive(Debug, Clone, Copy, PartialEq, Eq, Structural)]
pub enum ErrorKind {
    /// `expr!` was given nothing.
    EmptyExpression,
    /// `cons!` was given nothing.
    EmptyConstraint,
    /// The input ended where a term was expected.
    UnexpectedEnd,
    /// A token that cannot start a term.
    UnexpectedToken,
    /// A literal that is no numeric literal.
    NotNumeric,
    /// Something else, or nothing, where a numeric literal was expected.
    ExpectedNumber,
    /// `signpower` without its second argument.
    SignpowerArity,
    /// A call of a function that has no handler; `sqrt` gets its own hint.
    UnknownFunction { sqrt: bool },
    /// A `sum` or `prod` whose group is no comprehension.
    ComprehensionUsage { kind: Aggregate },
    /// A token after the end of what was read.
    TrailingToken,
    /// A strict `<` or `>` where a comparison was expected.
    StrictComparison,
    /// Something else, or nothing, where a comparison was expected.
    ExpectedComparison,
    /// The two comparisons of a two-sided constraint point different ways.
    MixedDirections,
    /// An outer bound of a two-sided constraint is no numeric literal.
    NonLiteralBound,
}

/// An error and the token it points at; `None` points at the macro call.
#[derive(Debug, PartialEq, Eq)]
pub struct ParseError {
    pub at: Option<Addr>,
    pub kind: ErrorKind,
}

/// The mathematical value of a [`ParseError`].
pub struct ErrorV {
    pub at: Option<Loc>,
    pub kind: ErrorKind,
}

/// The mathematical value of an optional place.
pub open spec fn opt_loc(a: Option<Addr>) -> Option<Loc> {
    match a {
        Some(x) => Some(x@),
        None => None,
    }
}

impl View for ParseError {
    type V = ErrorV;

    open spec fn view(&self) -> ErrorV {
        ErrorV { at: opt_loc(self.at), kind: self.kind }
    }
}

/// A constraint, as the grammar reads it.
#[derive(Debug, PartialEq, Eq)]
pub enum ConsForm {
    /// `lhs rel rhs`, which bounds `lhs - rhs` by zero.
    OneSided { lhs: Term, relation: Relation, rhs: Term },
    /// `lo <= body <= hi` or `hi >= body >= lo`: `lower <= body <= upper`.
    TwoSided { body: Term, lower: Signed, upper: Signed },
}

/// The mathematical value of a [`ConsForm`].
pub enum ConsV {
    OneSided { lhs: TermV, relation: Relation, rhs: TermV },
    TwoSided { body: TermV, lower: SignedV, upper: SignedV },
}

impl View for ConsForm {
    type V = ConsV;

    open spec fn view(&self) -> ConsV {
        match self {
            ConsForm::OneSided { lhs, relation, rhs } => ConsV::OneSided { lhs: lhs@, relation: *relation, rhs: rhs@ },
            ConsForm::TwoSided { body, lower, upper } => ConsV::TwoSided {
                body: body@,
                lower: lower@,
                upper: upper@,
            },
        }
    }
}

} // verus!
