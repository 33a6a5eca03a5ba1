use vstd::prelude::*;

verus! {

/// An ASCII letter, digit or underscore.
pub open spec fn is_word_char(c: char) -> bool {
    ('a' <= c <= 'z') || ('A' <= c <= 'Z') || ('0' <= c <= '9') || c == '_'
}

/// Text made of ASCII letters, digits and underscores only.
pub open spec fn is_word_text(s: Seq<char>) -> bool {
    forall|i: int| 0 <= i < s.len() ==> is_word_char(#[trigger] s[i])
}

/// An ASCII identifier: word characters, not starting with a digit.
pub open spec fn is_word(s: Seq<char>) -> bool {
    &&& s.len() > 0
    &&& !('0' <= s[0] <= '9')
    &&& is_word_text(s)
}

/// `r#` followed by word characters.
pub open spec fn is_raw_text(s: Seq<char>) -> bool {
    s.len() >= 2 && s[0] == 'r' && s[1] == '#' && is_word_text(s.skip(2))
}

/// The words that `syn` refuses as an identifier: `_` and the keywords.
pub open spec fn is_reserved(s: Seq<char>) -> bool {
    ||| s == "_"@ || s == "abstract"@ || s == "as"@ || s == "async"@ || s == "await"@
    ||| s == "become"@ || s == "box"@ || s == "break"@ || s == "const"@ || s == "continue"@
    ||| s == "crate"@ || s == "do"@ || s == "dyn"@ || s == "else"@ || s == "enum"@
    ||| s == "extern"@ || s == "false"@ || s == "final"@ || s == "fn"@ || s == "for"@
    ||| s == "if"@ || s == "impl"@ || s == "in"@ || s == "let"@ || s == "loop"@
    ||| s == "macro"@ || s == "match"@ || s == "mod"@ || s == "move"@ || s == "mut"@
    ||| s == "override"@ || s == "priv"@ || s == "pub"@ || s == "ref"@ || s == "return"@
    ||| s == "Self"@ || s == "self"@ || s == "static"@ || s == "struct"@ || s == "super"@
    ||| s == "trait"@ || s == "true"@ || s == "try"@ || s == "type"@ || s == "typeof"@
    ||| s == "unsafe"@ || s == "unsized"@ || s == "use"@ || s == "virtual"@ || s == "where"@
    ||| s == "while"@ || s == "yield"@
}

/// The words that cannot follow `r#` in a raw identifier.
pub open spec fn is_raw_refused(w: Seq<char>) -> bool {
    w == "_"@ || w == "super"@ || w == "self"@ || w == "Self"@ || w == "crate"@
}

/// Whether an ASCII word text (plain or raw) reads as one identifier that
/// `syn` accepts.
pub open spec fn is_ascii_name(s: Seq<char>) -> bool {
    ||| is_word(s) && !is_reserved(s)
    ||| is_raw_text(s) && is_word(s.skip(2)) && !is_raw_refused(s.skip(2))
}

/// Relies on `syn::parse_str::<syn::Ident>`: the text is lexed by
/// `proc_macro2` and accepted when it is one identifier token that is not
/// `_` or a keyword (`syn`'s `accept_as_ident`); `proc_macro2` refuses a raw
/// `r#_`, `r#super`, `r#self`, `r#Self` and `r#crate`. Which lexer runs
/// depends on the process, and the lexers agree on ASCII, so the result is
/// stated for ASCII word texts only.
#[verifier::external_body]
pub(crate) fn syn_accepts_ident(s: &str) -> (r: bool)
    ensures
        is_word_text(s@) || is_raw_text(s@) ==> r == is_ascii_name(s@),
{
    syn::parse_str::<syn::Ident>(s).is_ok()
}

/// Relies on `syn::parse_str::<syn::Generics>`: whether the whole text reads
/// as one generic parameter list. The answer depends on which lexer the
/// process uses, so nothing is promised of it.
#[verifier::external_body]
pub(crate) fn syn_accepts_generics(s: &str) -> (r: bool) {
    syn::parse_str::<syn::Generics>(s).is_ok()
}

} // verus!
