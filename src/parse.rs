use vstd::prelude::*;

use crate::syntax::{
    is_ascii_name, is_raw_text, is_word_text, syn_accepts_generics, syn_accepts_ident,
};
use crate::token::{copy_range, is_punct_char, render_range, Token, TokenKind};

verus! {

/// Why the macro arguments were refused. The kinds do not overlap: the parser
/// raises the first one whose expectation fails.
#[derive(PartialEq, Eq, Structural, Clone, Copy, Debug)]
pub enum ArgsError {
    Empty,
    NotComma,
    Single,
    NotIdent,
    InvalidOmit,
    TooMany,
}

/// The fixed message of each error kind.
pub open spec fn message_of(e: ArgsError) -> Seq<char> {
    match e {
        ArgsError::Empty => "The macro needs two ident as args."@,
        ArgsError::NotComma => "The macro needs to separate with comma."@,
        ArgsError::Single => "The macro needs two."@,
        ArgsError::NotIdent => "The macro needs idents."@,
        ArgsError::InvalidOmit => "The macro needs an ident after comma too."@,
        ArgsError::TooMany => "The macro needs only two idents as args."@,
    }
}

impl ArgsError {
    /// The diagnostic text shown for this kind.
    pub fn message(&self) -> (r: &'static str)
        ensures
            r@ == message_of(*self),
    {
        match self {
            ArgsError::Empty => "The macro needs two ident as args.",
            ArgsError::NotComma => "The macro needs to separate with comma.",
            ArgsError::Single => "The macro needs two.",
            ArgsError::NotIdent => "The macro needs idents.",
            ArgsError::InvalidOmit => "The macro needs an ident after comma too.",
            ArgsError::TooMany => "The macro needs only two idents as args.",
        }
    }
}

/// A refusal, with the index of the token where the expectation failed (the
/// number of tokens when it failed at the end of the input).
#[derive(PartialEq, Eq, Structural, Clone, Copy, Debug)]
pub struct ParseError {
    pub kind: ArgsError,
    pub position: usize,
}

/// The accepted arguments: the parsable type, its error type, and the generic
/// parameter list written after the parsable type, if any.
pub struct Args {
    parsable: Token,
    error: Token,
    generics: Option<Vec<Token>>,
}

/// What `Args` holds, as values.
pub struct ArgsModel {
    pub parsable: Token,
    pub error: Token,
    pub generics: Option<Seq<Token>>,
}

impl View for Args {
    type V = ArgsModel;

    closed spec fn view(&self) -> ArgsModel {
        ArgsModel {
            parsable: self.parsable,
            error: self.error,
            generics: match self.generics {
                Some(g) => Some(g@),
                None => None,
            },
        }
    }
}

pub open spec fn is_comma(t: Token) -> bool {
    is_punct_char(t, ',')
}

/// `flag` is an answer that `syn` may give on whether `t` is an identifier:
/// only an identifier token is ever accepted, and on ASCII word text the
/// answer is known.
pub open spec fn name_verdict(t: Token, flag: bool) -> bool {
    &&& flag ==> t.kind == TokenKind::Ident
    &&& (t.kind == TokenKind::Ident && (is_word_text(t.text@) || is_raw_text(t.text@))) ==> flag
        == is_ascii_name(t.text@)
}

/// `names` and `g` are answers that `syn` may give on `t`: one identifier
/// verdict per token, and a generic parameter list after the first token
/// only where that token is `<` and the list fits in the input.
pub open spec fn verdicts_fit(t: Seq<Token>, names: Seq<bool>, g: int) -> bool {
    &&& names.len() == t.len()
    &&& forall|i: int| 0 <= i < t.len() ==> name_verdict(t[i], #[trigger] names[i])
    &&& g == 0 || (1 <= g && 1 + g <= t.len() && is_punct_char(t[1], '<'))
}

/// The outcome of parsing `t` when `names[i]` tells whether token `i` is an
/// identifier and `g` is the length of the generic parameter list after the
/// first token (0 for none). Checks run in order and the first that fails
/// decides; a position is a token index, or `t.len()` for the end.
pub open spec fn decide(t: Seq<Token>, names: Seq<bool>, g: int) -> Result<
    ArgsModel,
    (ArgsError, int),
> {
    let n = t.len() as int;
    let c = 1 + g;
    if n == 0 {
        Err((ArgsError::Empty, 0))
    } else if !names[0] {
        Err((ArgsError::NotIdent, 0))
    } else if n == 1 {
        Err((ArgsError::Single, 1))
    } else if c >= n || !is_comma(t[c]) {
        Err((ArgsError::NotComma, c))
    } else if c + 1 == n {
        Err((ArgsError::InvalidOmit, n))
    } else if !names[c + 1] {
        Err((ArgsError::NotIdent, c + 1))
    } else if c + 2 < n {
        Err((ArgsError::TooMany, c + 2))
    } else {
        Ok(
            ArgsModel {
                parsable: t[0],
                error: t[c + 1],
                generics: if c == 1 {
                    None
                } else {
                    Some(t.subrange(1, c))
                },
            },
        )
    }
}

/// `o` is an outcome of parsing `t`, for some answers that `syn` may give.
pub open spec fn parse_outcome(t: Seq<Token>, o: Result<ArgsModel, (ArgsError, int)>) -> bool {
    exists|names: Seq<bool>, g: int| #[trigger] verdicts_fit(t, names, g) && o == decide(t, names, g)
}

/// The outcome of a parse, as values.
pub open spec fn outcome(r: Result<Args, ParseError>) -> Result<ArgsModel, (ArgsError, int)> {
    match r {
        Ok(a) => Ok(a@),
        Err(e) => Err((e.kind, e.position as int)),
    }
}

/// Whether `t` is an identifier that `syn` accepts.
fn check_ident(t: &Token) -> (r: bool)
    ensures
        name_verdict(*t, r),
{
    t.kind == TokenKind::Ident && syn_accepts_ident(t.text.as_str())
}

/// Speculatively reads a generic parameter list at `toks[i..]` and returns
/// its length, 0 when there is none; nothing is consumed on failure.
fn scan_generics(toks: &[Token], i: usize) -> (r: usize)
    requires
        1 <= i <= toks@.len(),
    ensures
        r == 0 || (i + r <= toks@.len() && is_punct_char(toks@[i as int], '<')),
{
    let n = toks.len();
    if i >= n || !toks[i].is_punct_char('<') {
        return 0;
    }
    let mut k: usize = 1;
    while k <= n - i
        invariant
            1 <= i < n == toks@.len(),
            is_punct_char(toks@[i as int], '<'),
            1 <= k <= n - i + 1,
        decreases n + 1 - i - k,
    {
        let text = render_range(toks, i, i + k);
        if syn_accepts_generics(text.as_str()) {
            return k;
        }
        k += 1;
    }
    0
}

impl Args {
    /// Parses `Ident (Generics)? , Ident` from `tokens`, asking `syn` which
    /// tokens are identifiers and where a generic parameter list ends: the
    /// shortest run after the first token that opens with `<` and that `syn`
    /// reads as one.
    ///
    /// The first failing expectation decides the error: no tokens is
    /// `Empty`; a first token that is no identifier is `NotIdent`; nothing
    /// after it is `Single`; then an optional generic parameter list is tried
    /// without consuming anything on failure; a missing comma is `NotComma`;
    /// nothing after the comma is `InvalidOmit`; a second token that is no
    /// identifier is `NotIdent`; anything after the pair is `TooMany`.
    pub fn parse(tokens: &[Token]) -> (r: Result<Args, ParseError>)
        ensures
            parse_outcome(tokens@, outcome(r)),
    {
        let mut names: Vec<bool> = Vec::new();
        let mut i: usize = 0;
        while i < tokens.len()
            invariant
                i <= tokens@.len(),
                names@.len() == i,
                forall|j: int| 0 <= j < i ==> name_verdict(tokens@[j], #[trigger] names@[j]),
            decreases tokens@.len() - i,
        {
            names.push(check_ident(&tokens[i]));
            i += 1;
        }
        let g = if tokens.len() >= 2 {
            scan_generics(tokens, 1)
        } else {
            0
        };
        let r = Args::parse_decided(tokens, names.as_slice(), g);
        assert(verdicts_fit(tokens@, names@, g as int));
        r
    }

    /// Parses `Ident (Generics)? , Ident` from `tokens`, given for each token
    /// whether it is an identifier (`names`) and the length of the generic
    /// parameter list right after the first token (`generics`, 0 for none).
    pub fn parse_decided(tokens: &[Token], names: &[bool], generics: usize) -> (r: Result<
        Args,
        ParseError,
    >)
        requires
            names@.len() == tokens@.len(),
            generics == 0 || 1 + generics <= tokens@.len(),
        ensures
            outcome(r) == decide(tokens@, names@, generics as int),
    {
        let n = tokens.len();
        if n == 0 {
            return Err(ParseError { kind: ArgsError::Empty, position: 0 });
        }
        if !names[0] {
            return Err(ParseError { kind: ArgsError::NotIdent, position: 0 });
        }
        if n == 1 {
            return Err(ParseError { kind: ArgsError::Single, position: 1 });
        }
        let c = 1 + generics;
        if c >= n || !tokens[c].is_punct_char(',') {
            return Err(ParseError { kind: ArgsError::NotComma, position: c });
        }
        if c + 1 == n {
            return Err(ParseError { kind: ArgsError::InvalidOmit, position: n });
        }
        if !names[c + 1] {
            return Err(ParseError { kind: ArgsError::NotIdent, position: c + 1 });
        }
        if c + 2 < n {
            return Err(ParseError { kind: ArgsError::TooMany, position: c + 2 });
        }
        let copied = if generics == 0 {
            None
        } else {
            Some(copy_range(tokens, 1, c))
        };
        let r = Args {
            parsable: tokens[0].duplicate(),
            error: tokens[c + 1].duplicate(),
            generics: copied,
        };
        assert(r@.generics == decide(tokens@, names@, generics as int)->Ok_0.generics);
        Ok(r)
    }

    /// The parsable type's name.
    pub fn get_parsable(&self) -> (r: &Token)
        ensures
            *r == self@.parsable,
    {
        &self.parsable
    }

    /// The error type's name.
    pub fn get_error(&self) -> (r: &Token)
        ensures
            *r == self@.error,
    {
        &self.error
    }

    /// The generic parameter list written after the parsable type, if any.
    pub fn get_generics(&self) -> (r: &Option<Vec<Token>>)
        ensures
            match *r {
                Some(g) => self@.generics == Some(g@),
                None => self@.generics is None,
            },
    {
        &self.generics
    }
}

} // verus!
