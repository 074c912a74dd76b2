use russcip::grammar::ast::{Addr, Aggregate, ConsForm, ErrorKind, Func, Number, Relation, Signed, Term};
use russcip::grammar::message::error_message;
use russcip::grammar::numeral::numeral;
use russcip::grammar::parser::{cons, expr, parse_constraint};
use russcip::grammar::token::{Delim, Token};

fn id(s: &str) -> Token {
    Token::Ident { text: s.chars().collect() }
}

fn lit(s: &str) -> Token {
    Token::Literal { text: s.chars().collect() }
}

fn p(c: char) -> Token {
    Token::Punct { ch: c, joint: false }
}

fn pj(c: char) -> Token {
    Token::Punct { ch: c, joint: true }
}

fn paren(stream: Vec<Token>) -> Token {
    Token::Group { delim: Delim::Parenthesis, stream }
}

fn brace(stream: Vec<Token>) -> Token {
    Token::Group { delim: Delim::Brace, stream }
}

fn bracket(stream: Vec<Token>) -> Token {
    Token::Group { delim: Delim::Bracket, stream }
}

fn le() -> Vec<Token> {
    vec![pj('<'), p('=')]
}

fn ge() -> Vec<Token> {
    vec![pj('>'), p('=')]
}

fn at(path: &[usize], index: usize) -> Addr {
    Addr { path: path.to_vec(), index }
}

fn place(index: usize) -> Term {
    Term::Place { at: at(&[], index), brackets: 0 }
}

fn num(digits: &str, path: &[usize], index: usize) -> Number {
    Number { numeral: digits.chars().collect(), at: at(path, index) }
}

fn constant(digits: &str, index: usize) -> Term {
    Term::Constant(num(digits, &[], index))
}

fn signed(negative: bool, digits: &str, index: usize) -> Signed {
    Signed { negative, number: num(digits, &[], index) }
}

fn b(t: Term) -> Box<Term> {
    Box::new(t)
}

fn cat(parts: Vec<Vec<Token>>) -> Vec<Token> {
    parts.into_iter().flatten().collect()
}

fn numeral_of(s: &str) -> Option<String> {
    let cs: Vec<char> = s.chars().collect();
    numeral(&cs).map(|v| v.into_iter().collect())
}

#[test]
fn power_binds_tighter_than_product_and_sum() {
    // x^2 + 3*y
    let toks = vec![id("x"), p('^'), lit("2"), p('+'), lit("3"), p('*'), id("y")];
    let t = expr(&toks).unwrap();
    let want = Term::Add(
        b(Term::Pow { base: b(place(0)), exponent: signed(false, "2", 2) }),
        b(Term::Mul(b(constant("3", 4)), b(place(6)))),
    );
    assert_eq!(t, want);
}

#[test]
fn sums_and_products_associate_to_the_left() {
    // a - b - c / d / e
    let toks = vec![id("a"), p('-'), id("b"), p('-'), id("c"), p('/'), id("d"), p('/'), id("e")];
    let t = expr(&toks).unwrap();
    let want = Term::Sub(
        b(Term::Sub(b(place(0)), b(place(2)))),
        b(Term::Div(b(Term::Div(b(place(4)), b(place(6)))), b(place(8)))),
    );
    assert_eq!(t, want);
}

#[test]
fn unary_signs_and_negative_exponents() {
    // - + -x ^ -2
    let toks = vec![p('-'), p('+'), p('-'), id("x"), p('^'), p('-'), lit("2")];
    let t = expr(&toks).unwrap();
    let want = Term::Neg(b(Term::Neg(b(Term::Pow { base: b(place(3)), exponent: signed(true, "2", 6) }))));
    assert_eq!(t, want);
}

#[test]
fn power_is_not_chainable() {
    // x ^ 2 ^ 3
    let toks = vec![id("x"), p('^'), lit("2"), p('^'), lit("3")];
    let e = expr(&toks).unwrap_err();
    assert_eq!(e.kind, ErrorKind::TrailingToken);
    assert_eq!(e.at, Some(at(&[], 3)));
}

#[test]
fn exponent_must_be_a_literal() {
    // x ^ y
    let toks = vec![id("x"), p('^'), id("y")];
    let e = expr(&toks).unwrap_err();
    assert_eq!(e.kind, ErrorKind::ExpectedNumber);
    assert_eq!(e.at, Some(at(&[], 2)));
    // x ^
    let toks = vec![id("x"), p('^')];
    let e = expr(&toks).unwrap_err();
    assert_eq!(e.kind, ErrorKind::ExpectedNumber);
    assert_eq!(e.at, None);
}

#[test]
fn places_keep_their_index_groups() {
    // c[i] * x[i][j]
    let toks = vec![
        id("c"),
        bracket(vec![id("i")]),
        p('*'),
        id("x"),
        bracket(vec![id("i")]),
        bracket(vec![id("j")]),
    ];
    let t = expr(&toks).unwrap();
    let want = Term::Mul(
        b(Term::Place { at: at(&[], 0), brackets: 1 }),
        b(Term::Place { at: at(&[], 3), brackets: 2 }),
    );
    assert_eq!(t, want);
}

#[test]
fn functions_splices_and_parentheses() {
    // exp(x) + { v } * (y - 1)
    let toks = vec![
        id("exp"),
        paren(vec![id("x")]),
        p('+'),
        brace(vec![id("v")]),
        p('*'),
        paren(vec![id("y"), p('-'), lit("1")]),
    ];
    let t = expr(&toks).unwrap();
    let want = Term::Add(
        b(Term::Call { func: Func::Exp, at: at(&[], 0), arg: b(Term::Place { at: at(&[1], 0), brackets: 0 }) }),
        b(Term::Mul(
            b(Term::Splice { at: at(&[], 3) }),
            b(Term::Sub(
                b(Term::Place { at: at(&[5], 0), brackets: 0 }),
                b(Term::Constant(num("1", &[5], 2))),
            )),
        )),
    );
    assert_eq!(t, want);
    for (name, f) in [
        ("log", Func::Log),
        ("sin", Func::Sin),
        ("cos", Func::Cos),
        ("abs", Func::Abs),
        ("entropy", Func::Entropy),
    ] {
        let toks = vec![id(name), paren(vec![id("x")])];
        match expr(&toks).unwrap() {
            Term::Call { func, .. } => assert_eq!(func, f),
            other => panic!("{:?}", other),
        }
    }
}

#[test]
fn sqrt_and_unknown_functions_are_refused() {
    let e = expr(&vec![id("sqrt"), paren(vec![id("x")])]).unwrap_err();
    assert_eq!(e.kind, ErrorKind::UnknownFunction { sqrt: true });
    assert_eq!(e.at, Some(at(&[], 0)));
    let e = expr(&vec![id("tan"), paren(vec![id("x")])]).unwrap_err();
    assert_eq!(e.kind, ErrorKind::UnknownFunction { sqrt: false });
}

#[test]
fn signpower_takes_an_expression_and_an_exponent() {
    // signpower(x + 1, -3)
    let toks = vec![id("signpower"), paren(vec![id("x"), p('+'), lit("1"), p(','), p('-'), lit("3")])];
    let t = expr(&toks).unwrap();
    let want = Term::Signpower {
        at: at(&[], 0),
        arg: b(Term::Add(
            b(Term::Place { at: at(&[1], 0), brackets: 0 }),
            b(Term::Constant(num("1", &[1], 2))),
        )),
        exponent: Signed { negative: true, number: num("3", &[1], 5) },
    };
    assert_eq!(t, want);
    let e = expr(&vec![id("signpower"), paren(vec![id("x")])]).unwrap_err();
    assert_eq!(e.kind, ErrorKind::SignpowerArity);
    let e = expr(&vec![id("signpower"), paren(vec![id("x"), p(','), lit("2"), lit("3")])]).unwrap_err();
    assert_eq!(e.kind, ErrorKind::TrailingToken);
    assert_eq!(e.at, Some(at(&[1], 3)));
}

#[test]
fn comprehensions_split_at_in_and_the_next_comma() {
    // sum(i in 0..n, c[i] * x[i])
    let inner = vec![
        id("i"),
        id("in"),
        lit("0"),
        pj('.'),
        p('.'),
        id("n"),
        p(','),
        id("c"),
        bracket(vec![id("i")]),
        p('*'),
        id("x"),
        bracket(vec![id("i")]),
    ];
    let t = expr(&vec![id("sum"), paren(inner)]).unwrap();
    let want = Term::Aggregate {
        kind: Aggregate::Sum,
        at: at(&[], 0),
        in_pos: 1,
        comma: 6,
        body: b(Term::Mul(
            b(Term::Place { at: at(&[1], 7), brackets: 1 }),
            b(Term::Place { at: at(&[1], 10), brackets: 1 }),
        )),
    };
    assert_eq!(t, want);
    // prod(x in &xs, x)
    let t = expr(&vec![id("prod"), paren(vec![id("x"), id("in"), p('&'), id("xs"), p(','), id("x")])]).unwrap();
    match t {
        Term::Aggregate { kind, in_pos, comma, .. } => {
            assert_eq!(kind, Aggregate::Prod);
            assert_eq!((in_pos, comma), (1, 4));
        },
        other => panic!("{:?}", other),
    }
}

#[test]
fn malformed_comprehensions_are_refused() {
    let usage = ErrorKind::ComprehensionUsage { kind: Aggregate::Sum };
    // no `in`
    let e = expr(&vec![id("sum"), paren(vec![id("i"), p(','), id("x")])]).unwrap_err();
    assert_eq!((e.kind, e.at), (usage, Some(at(&[], 0))));
    // `in` first
    let e = expr(&vec![id("sum"), paren(vec![id("in"), id("v"), p(','), id("x")])]).unwrap_err();
    assert_eq!(e.kind, usage);
    // no comma
    let e = expr(&vec![id("sum"), paren(vec![id("i"), id("in"), id("v")])]).unwrap_err();
    assert_eq!(e.kind, usage);
    // empty iterable
    let e = expr(&vec![id("sum"), paren(vec![id("i"), id("in"), p(','), id("x")])]).unwrap_err();
    assert_eq!(e.kind, usage);
    // empty body
    let e = expr(&vec![id("sum"), paren(vec![id("i"), id("in"), id("v"), p(',')])]).unwrap_err();
    assert_eq!(e.kind, usage);
}

#[test]
fn stray_tokens_and_ends() {
    let e = expr(&vec![]).unwrap_err();
    assert_eq!((e.kind, e.at), (ErrorKind::EmptyExpression, None));
    let e = expr(&vec![id("x"), p('+')]).unwrap_err();
    assert_eq!((e.kind, e.at), (ErrorKind::UnexpectedEnd, None));
    let e = expr(&vec![p('*'), id("x")]).unwrap_err();
    assert_eq!((e.kind, e.at), (ErrorKind::UnexpectedToken, Some(at(&[], 0))));
    let e = expr(&vec![bracket(vec![id("x")])]).unwrap_err();
    assert_eq!(e.kind, ErrorKind::UnexpectedToken);
    let e = expr(&vec![lit("\"s\"")]).unwrap_err();
    assert_eq!((e.kind, e.at), (ErrorKind::NotNumeric, Some(at(&[], 0))));
    let e = expr(&vec![id("x"), id("y")]).unwrap_err();
    assert_eq!((e.kind, e.at), (ErrorKind::TrailingToken, Some(at(&[], 1))));
    let e = expr(&vec![paren(vec![id("x"), id("y")])]).unwrap_err();
    assert_eq!((e.kind, e.at), (ErrorKind::TrailingToken, Some(at(&[0], 1))));
}

#[test]
fn numerals_drop_separators_and_type_suffixes() {
    assert_eq!(numeral_of("1_000"), Some("1000".to_string()));
    assert_eq!(numeral_of("2.0_f64"), Some("2.0".to_string()));
    assert_eq!(numeral_of("1.5e3f32"), Some("1.5e3".to_string()));
    assert_eq!(numeral_of("1.5e3f64"), Some("1.5e3".to_string()));
    assert_eq!(numeral_of("7u8"), Some("7".to_string()));
    assert_eq!(numeral_of("2.5E-3"), Some("2.5E-3".to_string()));
    assert_eq!(numeral_of("3."), Some("3.".to_string()));
    assert_eq!(numeral_of("0x10"), None);
    assert_eq!(numeral_of("1e"), Some("1".to_string()));
    assert_eq!(numeral_of("5foo"), Some("5".to_string()));
    assert_eq!(numeral_of("2.5x"), Some("2.5".to_string()));
    assert_eq!(numeral_of("0x1f"), None);
    assert_eq!(numeral_of("1.2.3"), None);
    assert_eq!(numeral_of("'c'"), None);
    let t = expr(&vec![lit("1_000.5")]).unwrap();
    assert_eq!(t, constant("1000.5", 0));
}

#[test]
fn one_sided_constraints_keep_both_sides() {
    // x^2 + y^2 <= 4
    let toks = cat(vec![
        vec![id("x"), p('^'), lit("2"), p('+'), id("y"), p('^'), lit("2")],
        le(),
        vec![lit("4")],
    ]);
    match cons(&toks).unwrap() {
        ConsForm::OneSided { relation, rhs, .. } => {
            assert_eq!(relation, Relation::Le);
            assert_eq!(rhs, constant("4", 9));
        },
        other => panic!("{:?}", other),
    }
    // x * y = 1
    let toks = vec![id("x"), p('*'), id("y"), p('='), lit("1")];
    let c = cons(&toks).unwrap();
    let want = ConsForm::OneSided {
        lhs: Term::Mul(b(place(0)), b(place(2))),
        relation: Relation::Eq,
        rhs: constant("1", 4),
    };
    assert_eq!(c, want);
    // x == 1 and x >= 1
    let c = cons(&vec![id("x"), pj('='), p('='), lit("1")]).unwrap();
    assert_eq!(c, ConsForm::OneSided { lhs: place(0), relation: Relation::Eq, rhs: constant("1", 3) });
    let c = cons(&cat(vec![vec![id("x")], ge(), vec![lit("1")]])).unwrap();
    assert_eq!(c, ConsForm::OneSided { lhs: place(0), relation: Relation::Ge, rhs: constant("1", 3) });
    // 1 <= x: a literal on the left alone is a one-sided constraint
    let c = cons(&cat(vec![vec![lit("1")], le(), vec![id("x")]])).unwrap();
    assert_eq!(c, ConsForm::OneSided { lhs: constant("1", 0), relation: Relation::Le, rhs: place(3) });
}

#[test]
fn two_sided_constraints_order_their_bounds() {
    // 1 <= x + y <= 5
    let toks = cat(vec![vec![lit("1")], le(), vec![id("x"), p('+'), id("y")], le(), vec![lit("5")]]);
    let c = cons(&toks).unwrap();
    let want = ConsForm::TwoSided {
        body: Term::Add(b(place(3)), b(place(5))),
        lower: signed(false, "1", 0),
        upper: signed(false, "5", 8),
    };
    assert_eq!(c, want);
    // 5 >= x >= -1
    let toks = cat(vec![vec![lit("5")], ge(), vec![id("x")], ge(), vec![p('-'), lit("1")]]);
    let c = cons(&toks).unwrap();
    let want = ConsForm::TwoSided {
        body: place(3),
        lower: signed(true, "1", 7),
        upper: signed(false, "5", 0),
    };
    assert_eq!(c, want);
}

#[test]
fn malformed_constraints_are_refused() {
    let e = cons(&vec![]).unwrap_err();
    assert_eq!((e.kind, e.at), (ErrorKind::EmptyConstraint, None));
    // x < 1
    let e = cons(&vec![id("x"), p('<'), lit("1")]).unwrap_err();
    assert_eq!((e.kind, e.at), (ErrorKind::StrictComparison, Some(at(&[], 1))));
    // x
    let e = cons(&vec![id("x")]).unwrap_err();
    assert_eq!((e.kind, e.at), (ErrorKind::ExpectedComparison, None));
    // x 1
    let e = parse_constraint(&vec![id("x"), lit("1")]).unwrap_err();
    assert_eq!((e.kind, e.at), (ErrorKind::ExpectedComparison, Some(at(&[], 1))));
    // 1 <= x >= 0
    let toks = cat(vec![vec![lit("1")], le(), vec![id("x")], ge(), vec![lit("0")]]);
    let e = cons(&toks).unwrap_err();
    assert_eq!((e.kind, e.at), (ErrorKind::MixedDirections, Some(at(&[], 4))));
    // 1 <= x <= y
    let toks = cat(vec![vec![lit("1")], le(), vec![id("x")], le(), vec![id("y")]]);
    let e = cons(&toks).unwrap_err();
    assert_eq!((e.kind, e.at), (ErrorKind::NonLiteralBound, Some(at(&[], 6))));
    // 1 <= x <=
    let toks = cat(vec![vec![lit("1")], le(), vec![id("x")], le()]);
    let e = cons(&toks).unwrap_err();
    assert_eq!((e.kind, e.at), (ErrorKind::NonLiteralBound, None));
    // 1 <= x <= 2 3
    let toks = cat(vec![vec![lit("1")], le(), vec![id("x")], le(), vec![lit("2"), lit("3")]]);
    let e = cons(&toks).unwrap_err();
    assert_eq!((e.kind, e.at), (ErrorKind::TrailingToken, Some(at(&[], 7))));
    // x <= 1 2
    let toks = cat(vec![vec![id("x")], le(), vec![lit("1"), lit("2")]]);
    let e = cons(&toks).unwrap_err();
    assert_eq!((e.kind, e.at), (ErrorKind::TrailingToken, Some(at(&[], 4))));
}

fn resolve<'a>(root: &'a [Token], a: &Addr) -> Option<&'a Token> {
    let mut s = root;
    for &i in &a.path {
        match s.get(i) {
            Some(Token::Group { stream, .. }) => s = stream,
            _ => return None,
        }
    }
    s.get(a.index)
}

#[test]
fn reported_places_name_tokens_of_the_input() {
    // sum(i in v, c[i] * exp({ w }) ^ 2) + y
    let toks = vec![
        id("sum"),
        paren(vec![
            id("i"),
            id("in"),
            id("v"),
            p(','),
            id("c"),
            bracket(vec![id("i")]),
            p('*'),
            id("exp"),
            paren(vec![brace(vec![id("w")])]),
            p('^'),
            lit("2"),
        ]),
        p('+'),
        id("y"),
    ];
    let t = expr(&toks).unwrap();
    let Term::Add(agg, y) = t else { panic!() };
    let Term::Aggregate { at, body, in_pos, comma, .. } = *agg else { panic!() };
    assert!(matches!(resolve(&toks, &at), Some(Token::Ident { .. })));
    assert!(matches!(resolve(&toks, &Addr { path: vec![1], index: in_pos }), Some(Token::Ident { .. })));
    assert!(matches!(resolve(&toks, &Addr { path: vec![1], index: comma }), Some(Token::Punct { ch: ',', .. })));
    let Term::Mul(c, pw) = *body else { panic!() };
    let Term::Place { at: c_at, brackets } = *c else { panic!() };
    assert!(matches!(resolve(&toks, &Addr { path: c_at.path.clone(), index: c_at.index + brackets }), Some(Token::Group { .. })));
    let Term::Pow { base, exponent } = *pw else { panic!() };
    assert!(matches!(resolve(&toks, &exponent.number.at), Some(Token::Literal { .. })));
    let Term::Call { arg, .. } = *base else { panic!() };
    let Term::Splice { at: s_at } = *arg else { panic!() };
    assert!(matches!(resolve(&toks, &s_at), Some(Token::Group { delim: Delim::Brace, .. })));
    let Term::Place { at: y_at, .. } = *y else { panic!() };
    assert!(matches!(resolve(&toks, &y_at), Some(Token::Ident { .. })));
    // an error deep inside a group
    let bad = vec![id("exp"), paren(vec![paren(vec![id("x"), id("y")])])];
    let e = expr(&bad).unwrap_err();
    assert_eq!(e.kind, ErrorKind::TrailingToken);
    assert!(matches!(resolve(&bad, e.at.as_ref().unwrap()), Some(Token::Ident { .. })));
}

#[test]
fn error_messages_name_the_offending_token() {
    assert_eq!(error_message(ErrorKind::UnexpectedToken, Some("@")), "unexpected token `@`");
    assert_eq!(error_message(ErrorKind::StrictComparison, Some("<")), "`<` is not representable — a constraint has closed bounds; use `<=`");
    assert_eq!(
        error_message(ErrorKind::UnknownFunction { sqrt: true }, Some("sqrt")),
        "unknown function `sqrt` — SCIP has no `sqrt` handler; write `x^0.5` instead"
    );
    assert_eq!(error_message(ErrorKind::ExpectedNumber, None), "expected a numeric literal");
    assert_eq!(
        error_message(ErrorKind::ExpectedComparison, Some("x")),
        "expected a comparison (`<=`, `>=`, `=`), found `x`"
    );
    assert_eq!(
        error_message(ErrorKind::ComprehensionUsage { kind: Aggregate::Prod }, None),
        "`prod` takes a comprehension: `prod(pattern in iterable, expression)`"
    );
    assert_eq!(error_message(ErrorKind::UnexpectedToken, None), "unexpected token ``");
}
