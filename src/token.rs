use vstd::prelude::*;
use vstd::string::*;

verus! {

/// The lexical class of one token tree.
#[derive(PartialEq, Eq, Structural, Clone, Copy, Debug)]
pub enum TokenKind {
    Ident,
    Punct,
    Literal,
    /// A delimited group, kept whole as one token.
    Group,
}

/// One token tree of the macro input, as plain values.
///
/// `text` is the token as the host prints it (a group with its delimiters),
/// and `joint` tells whether a punctuation character is glued to the next
/// token (as the quote of a lifetime is).
#[derive(Clone, Debug)]
pub struct Token {
    pub kind: TokenKind,
    pub text: String,
    pub joint: bool,
}

/// The text that separates `prev` from the token after it.
pub open spec fn gap_after(prev: Token) -> Seq<char> {
    if prev.kind == TokenKind::Punct && prev.joint {
        Seq::empty()
    } else {
        seq![' ']
    }
}

/// The source text of a token sequence: the tokens' texts, one space apart,
/// with no space after a joint punctuation character.
pub open spec fn render(toks: Seq<Token>) -> Seq<char>
    decreases toks.len(),
{
    if toks.len() == 0 {
        Seq::empty()
    } else if toks.len() == 1 {
        toks[0].text@
    } else {
        render(toks.drop_last()) + gap_after(toks[toks.len() - 2]) + toks.last().text@
    }
}

/// A punctuation token made of the single character `c`.
pub open spec fn is_punct_char(t: Token, c: char) -> bool {
    t.kind == TokenKind::Punct && t.text@ == seq![c]
}

impl Token {
    /// An identifier (or keyword) token.
    pub fn ident(text: &str) -> (r: Token)
        ensures
            r.kind == TokenKind::Ident,
            r.text@ == text@,
            !r.joint,
    {
        Token { kind: TokenKind::Ident, text: String::from_str(text), joint: false }
    }

    /// A punctuation token; `joint` glues it to the next token.
    pub fn punct(text: &str, joint: bool) -> (r: Token)
        ensures
            r.kind == TokenKind::Punct,
            r.text@ == text@,
            r.joint == joint,
    {
        Token { kind: TokenKind::Punct, text: String::from_str(text), joint }
    }

    /// A literal token, written as in source.
    pub fn literal(text: &str) -> (r: Token)
        ensures
            r.kind == TokenKind::Literal,
            r.text@ == text@,
            !r.joint,
    {
        Token { kind: TokenKind::Literal, text: String::from_str(text), joint: false }
    }

    /// A delimited group, written with its delimiters.
    pub fn group(text: &str) -> (r: Token)
        ensures
            r.kind == TokenKind::Group,
            r.text@ == text@,
            !r.joint,
    {
        Token { kind: TokenKind::Group, text: String::from_str(text), joint: false }
    }

    /// A copy of this token.
    pub fn duplicate(&self) -> (r: Token)
        ensures
            r == *self,
    {
        Token { kind: self.kind, text: self.text.clone(), joint: self.joint }
    }

    /// Whether this token is the single punctuation character `c`.
    pub fn is_punct_char(&self, c: char) -> (r: bool)
        ensures
            r == is_punct_char(*self, c),
    {
        if self.kind != TokenKind::Punct {
            return false;
        }
        let s = self.text.as_str();
        if s.unicode_len() != 1 {
            return false;
        }
        let r = s.get_char(0) == c;
        proof {
            if r {
                assert(s@ =~= seq![c]);
            }
        }
        r
    }
}

/// Copies `toks[from..to]` into a new vector.
pub fn copy_range(toks: &[Token], from: usize, to: usize) -> (r: Vec<Token>)
    requires
        from <= to <= toks@.len(),
    ensures
        r@ == toks@.subrange(from as int, to as int),
{
    let mut r: Vec<Token> = Vec::new();
    let mut i: usize = from;
    while i < to
        invariant
            from <= i <= to <= toks@.len(),
            r@ == toks@.subrange(from as int, i as int),
        decreases to - i,
    {
        r.push(toks[i].duplicate());
        i += 1;
        assert(r@ =~= toks@.subrange(from as int, i as int));
    }
    r
}

/// The source text of `toks[from..to]`.
pub fn render_range(toks: &[Token], from: usize, to: usize) -> (r: String)
    requires
        from <= to <= toks@.len(),
    ensures
        r@ == render(toks@.subrange(from as int, to as int)),
{
    let mut r = String::new();
    let mut i: usize = from;
    while i < to
        invariant
            from <= i <= to <= toks@.len(),
            r@ == render(toks@.subrange(from as int, i as int)),
        decreases to - i,
    {
        let ghost before = toks@.subrange(from as int, i as int);
        let ghost after = toks@.subrange(from as int, i + 1);
        if i > from {
            let prev = &toks[i - 1];
            if !(prev.kind == TokenKind::Punct && prev.joint) {
                r.append(" ");
            }
        }
        r.append(toks[i].text.as_str());
        proof {
            reveal_strlit(" ");
            assert(after.drop_last() =~= before);
            if i > from {
                assert(after[after.len() - 2] == toks@[i - 1]);
            }
        }
        i += 1;
    }
    r
}

} // verus!
