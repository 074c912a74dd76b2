use vstd::prelude::*;

verus! {

/// The delimiter of a token group.
#[derive(Debug, Clone, Copy, PartialEq, Eq, Structural)]
pub enum Delim {
    /// `( ... )`
    Parenthesis,
    /// `{ ... }`
    Brace,
    /// `[ ... ]`
    Bracket,
    /// An invisible delimiter.
    NoDelim,
}

/// A token of a macro's input, as the grammar sees it.
#[derive(Debug)]
pub enum Token {
    /// An identifier or keyword, by its characters.
    Ident { text: Vec<char> },
    /// A punctuation character; `joint` when the next character belongs to
    /// the same operator.
    Punct { ch: char, joint: bool },
    /// A literal, as it is written.
    Literal { text: Vec<char> },
    /// A delimited group of tokens.
    Group { delim: Delim, stream: Vec<Token> },
}

/// How deeply groups nest in a token.
pub open spec fn tok_depth(t: Token) -> nat
    decreases t,
{
    match t {
        Token::Group { stream, .. } => 1 + seq_depth(stream@),
        _ => 0,
    }
}

/// How deeply groups nest in a sequence of tokens.
pub open spec fn seq_depth(s: Seq<Token>) -> nat
    decreases s,
{
    if s.len() == 0 {
        0
    } else {
        let a = tok_depth(s.last());
        let b = seq_depth(s.drop_last());
        if a >= b { a } else { b }
    }
}

/// A token nests no deeper than the sequence it stands in.
pub proof fn lemma_elem_depth(s: Seq<Token>, i: int)
    requires
        0 <= i < s.len(),
    ensures
        tok_depth(s[i]) <= seq_depth(s),
    decreases s.len(),
{
    if i < s.len() - 1 {
        lemma_elem_depth(s.drop_last(), i);
        assert(s.drop_last()[i] == s[i]);
    }
}

/// The tokens of a group nest less deeply than the sequence the group stands in.
pub proof fn lemma_group_depth(s: Seq<Token>, i: int)
    requires
        0 <= i < s.len(),
        s[i] is Group,
    ensures
        seq_depth(s[i]->stream@) < seq_depth(s),
{
    lemma_elem_depth(s, i);
}

} // verus!
