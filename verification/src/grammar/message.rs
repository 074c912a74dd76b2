use vstd::prelude::*;
use vstd::string::StringExecFns;
use crate::grammar::ast::{Aggregate, ErrorKind};

verus! {

/// The text of the offending token, or nothing where the error names none.
pub open spec fn text_or_empty(text: Option<Seq<char>>) -> Seq<char> {
    match text {
        Some(t) => t,
        None => Seq::<char>::empty(),
    }
}

/// The message the macros report for an error of kind `kind`, given the
/// text of the token it names, if any.
pub open spec fn message_of(kind: ErrorKind, text: Option<Seq<char>>) -> Seq<char> {
    let t = text_or_empty(text);
    match kind {
        ErrorKind::EmptyExpression => "expr! requires a non-empty expression"@,
        ErrorKind::EmptyConstraint => "cons! requires a comparison, e.g. `cons!(x^2 <= 16)`"@,
        ErrorKind::UnexpectedEnd => "unexpected end of expression"@,
        ErrorKind::UnexpectedToken => "unexpected token `"@ + t + "`"@,
        ErrorKind::NotNumeric => "`"@ + t + "` is not a numeric literal"@,
        ErrorKind::ExpectedNumber => match text {
            Some(_) => "expected a numeric literal, found `"@ + t + "` — SCIP takes a constant here"@,
            None => "expected a numeric literal"@,
        },
        ErrorKind::SignpowerArity => "signpower takes two arguments: `signpower(expr, exponent)`"@,
        ErrorKind::UnknownFunction { sqrt } => "unknown function `"@ + t + if sqrt {
            "` — SCIP has no `sqrt` handler; write `x^0.5` instead"@
        } else {
            "` — supported: exp, log, sin, cos, abs, entropy, signpower(expr, n), sum(..), prod(..)"@
        },
        ErrorKind::ComprehensionUsage { kind } => match kind {
            Aggregate::Sum => "`sum` takes a comprehension: `sum(pattern in iterable, expression)`"@,
            Aggregate::Prod => "`prod` takes a comprehension: `prod(pattern in iterable, expression)`"@,
        },
        ErrorKind::TrailingToken => "unexpected trailing token `"@ + t + "`"@,
        ErrorKind::StrictComparison => "`"@ + t
            + "` is not representable — a constraint has closed bounds; use `"@ + t + "=`"@,
        ErrorKind::ExpectedComparison => match text {
            Some(_) => "expected a comparison (`<=`, `>=`, `=`), found `"@ + t + "`"@,
            None => "expected a comparison (`<=`, `>=`, `=`)"@,
        },
        ErrorKind::MixedDirections => "the two comparisons in a two-sided constraint must point the same way"@,
        ErrorKind::NonLiteralBound => "the outer bounds of a two-sided constraint must be numeric literals"@,
    }
}

/// The string `a`, then `b`, then `c`.
fn join3(a: &str, b: &str, c: &str) -> (s: String)
    ensures
        s@ == a@ + b@ + c@,
{
    let mut s = a.to_owned();
    s.append(b);
    s.append(c);
    s
}

/// The message the macros report for an error of kind `kind`, given the
/// text of the token it names, if any, as [`message_of`] says.
pub fn error_message(kind: ErrorKind, text: Option<&str>) -> (m: String)
    ensures
        m@ == message_of(kind, match text {
            Some(t) => Some(t@),
            None => None,
        }),
{
    let t: &str = match text {
        Some(t) => t,
        None => {
            proof {
                reveal_strlit("");
            }
            ""
        },
    };
    match kind {
        ErrorKind::EmptyExpression => "expr! requires a non-empty expression".to_owned(),
        ErrorKind::EmptyConstraint => "cons! requires a comparison, e.g. `cons!(x^2 <= 16)`".to_owned(),
        ErrorKind::UnexpectedEnd => "unexpected end of expression".to_owned(),
        ErrorKind::UnexpectedToken => join3("unexpected token `", t, "`"),
        ErrorKind::NotNumeric => join3("`", t, "` is not a numeric literal"),
        ErrorKind::ExpectedNumber => match text {
            Some(_) => join3("expected a numeric literal, found `", t, "` — SCIP takes a constant here"),
            None => "expected a numeric literal".to_owned(),
        },
        ErrorKind::SignpowerArity => "signpower takes two arguments: `signpower(expr, exponent)`".to_owned(),
        ErrorKind::UnknownFunction { sqrt } => {
            if sqrt {
                join3("unknown function `", t, "` — SCIP has no `sqrt` handler; write `x^0.5` instead")
            } else {
                join3(
                    "unknown function `",
                    t,
                    "` — supported: exp, log, sin, cos, abs, entropy, signpower(expr, n), sum(..), prod(..)",
                )
            }
        },
        ErrorKind::ComprehensionUsage { kind } => match kind {
            Aggregate::Sum => "`sum` takes a comprehension: `sum(pattern in iterable, expression)`".to_owned(),
            Aggregate::Prod => "`prod` takes a comprehension: `prod(pattern in iterable, expression)`".to_owned(),
        },
        ErrorKind::TrailingToken => join3("unexpected trailing token `", t, "`"),
        ErrorKind::StrictComparison => {
            let mut m = join3("`", t, "` is not representable — a constraint has closed bounds; use `");
            m.append(t);
            m.append("=`");
            m
        },
        ErrorKind::ExpectedComparison => match text {
            Some(_) => join3("expected a comparison (`<=`, `>=`, `=`), found `", t, "`"),
            None => "expected a comparison (`<=`, `>=`, `=`)".to_owned(),
        },
        ErrorKind::MixedDirections => "the two comparisons in a two-sided constraint must point the same way".to_owned(),
        ErrorKind::NonLiteralBound => "the outer bounds of a two-sided constraint must be numeric literals".to_owned(),
    }
}

} // verus!
