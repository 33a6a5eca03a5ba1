use vstd::prelude::*;

use crate::parse::{
    decide, is_comma, name_verdict, outcome, parse_outcome, verdicts_fit, Args, ArgsError,
    ArgsModel, ParseError,
};
use crate::syntax::{is_reserved, is_word, is_word_text};
use crate::token::{is_punct_char, Token, TokenKind};

verus! {

/// An identifier token of ASCII word text that is no keyword: one that
/// `syn` always accepts.
pub open spec fn is_plain_name(t: Token) -> bool {
    t.kind == TokenKind::Ident && is_word(t.text@) && !is_reserved(t.text@)
}

/// Under the verdicts `names` and `g`, `t` is `Ident (Generics)? , Ident`
/// and nothing else, with `g` tokens of generics.
pub open spec fn well_shaped(t: Seq<Token>, names: Seq<bool>, g: int) -> bool {
    let n = t.len() as int;
    &&& g >= 0
    &&& n == g + 3
    &&& names[0]
    &&& is_comma(t[n - 2])
    &&& names[n - 1]
}

/// A comma is not `<`.
proof fn lemma_comma_not_angle(t: Token)
    requires
        is_comma(t),
    ensures
        !is_punct_char(t, '<'),
{
    if is_punct_char(t, '<') {
        assert(t.text@[0] == ',');
    }
}

/// `syn` accepts a plain name whatever lexer runs.
proof fn lemma_plain_name_accepted(t: Token, flag: bool)
    requires
        is_plain_name(t),
        name_verdict(t, flag),
    ensures
        flag,
{
    assert(is_word_text(t.text@));
}

/// Two plain names separated by a comma are accepted as they are, in
/// order, with no generics, whatever else `syn` answers.
pub proof fn law_plain_pair(p: Token, comma: Token, e: Token, o: Result<ArgsModel, (ArgsError, int)>)
    requires
        is_plain_name(p),
        is_comma(comma),
        is_plain_name(e),
        parse_outcome(seq![p, comma, e], o),
    ensures
        o == Ok::<ArgsModel, (ArgsError, int)>(ArgsModel { parsable: p, error: e, generics: None }),
{
    let t = seq![p, comma, e];
    let (names, g) = choose|names: Seq<bool>, g: int|
        #[trigger] verdicts_fit(t, names, g) && o == decide(t, names, g);
    lemma_plain_name_accepted(p, names[0]);
    lemma_plain_name_accepted(e, names[2]);
    lemma_comma_not_angle(comma);
}

/// An identifier, a run `g` that `syn` reads as the generic parameter list,
/// a comma and an identifier are accepted, with the list captured token for
/// token.
pub proof fn law_pair_with_generics(
    p: Token,
    g: Seq<Token>,
    comma: Token,
    e: Token,
    names: Seq<bool>,
)
    requires
        g.len() >= 1,
        names.len() == g.len() + 3,
        names[0],
        is_comma(comma),
        names[g.len() + 2 as int],
    ensures
        decide(seq![p] + g + seq![comma, e], names, g.len() as int) == Ok::<
            ArgsModel,
            (ArgsError, int),
        >(ArgsModel { parsable: p, error: e, generics: Some(g) }),
{
    let t = seq![p] + g + seq![comma, e];
    assert(t.subrange(1, 1 + g.len() as int) =~= g);
    assert(t[1 + g.len() as int] == comma);
    assert(t[2 + g.len() as int] == e);
}

/// The parser keeps no state: any two outcomes of `Args::parse_decided` on
/// the same tokens and verdicts are the same.
pub proof fn law_parse_repeatable(
    t: Seq<Token>,
    names: Seq<bool>,
    g: int,
    r1: Result<Args, ParseError>,
    r2: Result<Args, ParseError>,
)
    requires
        outcome(r1) == decide(t, names, g),
        outcome(r2) == decide(t, names, g),
    ensures
        outcome(r1) == outcome(r2),
{
}

/// Exactly the inputs of the shape `Ident (Generics)? , Ident` are accepted,
/// and what is accepted is read off the input: its first and last tokens
/// and, between them and the comma, the generics.
pub proof fn law_accepts_exactly_pairs(t: Seq<Token>, names: Seq<bool>, g: int)
    requires
        names.len() == t.len(),
        g >= 0,
    ensures
        decide(t, names, g) is Ok <==> well_shaped(t, names, g),
        well_shaped(t, names, g) ==> decide(t, names, g) == Ok::<ArgsModel, (ArgsError, int)>(
            ArgsModel {
                parsable: t[0],
                error: t[t.len() - 1],
                generics: if g == 0 {
                    None
                } else {
                    Some(t.subrange(1, 1 + g))
                },
            },
        ),
{
}

/// Whatever `syn` answers, what `Args::parse` accepts is an identifier
/// token, then nothing or a run that opens with `<`, then a comma and an
/// identifier token, and it is captured as it stands.
pub proof fn law_parse_accepts_only_pairs(t: Seq<Token>, o: Result<ArgsModel, (ArgsError, int)>)
    requires
        parse_outcome(t, o),
        o is Ok,
    ensures
        t.len() >= 3,
        t[0].kind == TokenKind::Ident,
        is_comma(t[t.len() - 2]),
        t[t.len() - 1].kind == TokenKind::Ident,
        t.len() == 3 || is_punct_char(t[1], '<'),
        o == Ok::<ArgsModel, (ArgsError, int)>(
            ArgsModel {
                parsable: t[0],
                error: t[t.len() - 1],
                generics: if t.len() == 3 {
                    None
                } else {
                    Some(t.subrange(1, t.len() - 2))
                },
            },
        ),
{
    let (names, g) = choose|names: Seq<bool>, g: int|
        #[trigger] verdicts_fit(t, names, g) && o == decide(t, names, g);
    assert(name_verdict(t[0], names[0]));
    assert(name_verdict(t[t.len() - 1], names[t.len() - 1]));
}

/// Whatever follows a complete pair, the first surplus token is refused as
/// `TooMany`.
pub proof fn law_surplus_is_too_many(t: Seq<Token>, names: Seq<bool>, g: int, p: int)
    requires
        0 <= p < t.len(),
        names.len() == t.len(),
        well_shaped(t.take(p), names.take(p), g),
    ensures
        decide(t, names, g) == Err::<ArgsModel, (ArgsError, int)>((ArgsError::TooMany, p)),
{
    assert(t.take(p)[p - 2] == t[p - 2]);
    assert(names.take(p)[0] == names[0]);
    assert(names.take(p)[p - 1] == names[p - 1]);
}

/// Each refusal is tied to its place: no tokens is `Empty` and nothing else
/// is; a lone identifier is `Single` and nothing else is; `NotIdent` points
/// at a token that is no identifier; `InvalidOmit` comes at the end, after a
/// comma; every position lies in the input or at its end; `TooMany` points
/// just past a complete pair.
pub proof fn law_error_positions(t: Seq<Token>, names: Seq<bool>, g: int)
    requires
        names.len() == t.len(),
        g == 0 || 1 <= g && 1 + g <= t.len(),
    ensures
        (decide(t, names, g) is Err && decide(t, names, g)->Err_0.0 == ArgsError::Empty) <==> t.len()
            == 0,
        (decide(t, names, g) is Err && decide(t, names, g)->Err_0.0 == ArgsError::Single) <==> (
        t.len() == 1 && names[0]),
        decide(t, names, g) is Err ==> 0 <= decide(t, names, g)->Err_0.1 <= t.len(),
        decide(t, names, g) matches Err((ArgsError::NotIdent, q)) ==> q < t.len() && !names[q],
        decide(t, names, g) matches Err((ArgsError::InvalidOmit, q)) ==> q == t.len() && is_comma(
            t[q - 1],
        ),
        decide(t, names, g) matches Err((ArgsError::TooMany, q)) ==> q < t.len() && well_shaped(
            t.take(q),
            names.take(q),
            g,
        ),
{
    if let Err((ArgsError::TooMany, q)) = decide(t, names, g) {
        assert(t.take(q)[q - 2] == t[q - 2]);
        assert(names.take(q)[0] == names[0]);
        assert(names.take(q)[q - 1] == names[q - 1]);
    }
}

/// Whatever `syn` answers, `Args::parse` refuses no tokens as `Empty` at 0,
/// and a first token that is no identifier token as `NotIdent` at 0.
pub proof fn law_parse_first_refusals(t: Seq<Token>, o: Result<ArgsModel, (ArgsError, int)>)
    requires
        parse_outcome(t, o),
    ensures
        t.len() == 0 ==> o == Err::<ArgsModel, (ArgsError, int)>((ArgsError::Empty, 0)),
        t.len() > 0 && t[0].kind != TokenKind::Ident ==> o == Err::<ArgsModel, (ArgsError, int)>(
            (ArgsError::NotIdent, 0),
        ),
{
    let (names, g) = choose|names: Seq<bool>, g: int|
        #[trigger] verdicts_fit(t, names, g) && o == decide(t, names, g);
    if t.len() > 0 {
        assert(name_verdict(t[0], names[0]));
    }
}

} // verus!
