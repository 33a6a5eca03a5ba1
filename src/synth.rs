use vstd::prelude::*;
use vstd::string::*;

use crate::parse::{outcome, parse_outcome, ArgsError, Args, ArgsModel, ParseError};
use crate::token::{render, render_range, Token};

verus! {

/// The source of the generic parameter list, or nothing.
pub open spec fn generics_source(g: Option<Seq<Token>>) -> Seq<char> {
    match g {
        Some(g) => render(g),
        None => Seq::empty(),
    }
}

/// The items emitted for accepted arguments: an `Assert` alias of the
/// assertion helper over the parsable type (with its generics) and the error
/// type, and an `assert` fixture that builds one.
pub open spec fn fixture_source(a: ArgsModel) -> Seq<char> {
    "type Assert = assert_parse::Assert<"@ + a.parsable.text@ + generics_source(a.generics)
        + ", "@ + a.error.text@ + ">;\n\n"@
        + "#[rstest::fixture]\nfn assert() -> Assert {\n    assert_parse::make_assert()\n}\n"@
}

/// `r` is the expansion for the parse outcome `o`: the items for accepted
/// arguments, or the same error kind and position.
pub open spec fn expansion_of(o: Result<ArgsModel, (ArgsError, int)>, r: Result<String, ParseError>) -> bool {
    match o {
        Ok(a) => r matches Ok(s) && s@ == fixture_source(a),
        Err((kind, at)) => r matches Err(e) && e.kind == kind && e.position == at,
    }
}

/// Writes the alias and fixture for `args`.
pub fn synthesize(args: &Args) -> (r: String)
    ensures
        r@ == fixture_source(args@),
{
    let mut r = String::from_str("type Assert = assert_parse::Assert<");
    r.append(args.get_parsable().text.as_str());
    match args.get_generics() {
        Some(g) => {
            let text = render_range(g.as_slice(), 0, g.len());
            assert(g@.subrange(0, g@.len() as int) =~= g@);
            r.append(text.as_str());
        },
        None => {},
    }
    r.append(", ");
    r.append(args.get_error().text.as_str());
    r.append(">;\n\n");
    r.append("#[rstest::fixture]\nfn assert() -> Assert {\n    assert_parse::make_assert()\n}\n");
    r
}

/// Expands the macro arguments `tokens`: the alias and fixture source when
/// they parse, else the parse error, whose kind's `message` the host shows
/// at the error's position.
pub fn register_assert(tokens: &[Token]) -> (r: Result<String, ParseError>)
    ensures
        exists|o| #[trigger] parse_outcome(tokens@, o) && expansion_of(o, r),
{
    let parsed = Args::parse(tokens);
    let r = match &parsed {
        Ok(args) => Ok(synthesize(args)),
        Err(e) => Err(*e),
    };
    assert(parse_outcome(tokens@, outcome(parsed)) && expansion_of(outcome(parsed), r));
    r
}

} // verus!
