use register_assert_macro::token::render_range;
use register_assert_macro::{register_assert, synthesize, Args, ArgsError, ParseError, Token};

fn id(s: &str) -> Token {
    Token::ident(s)
}

fn p(s: &str) -> Token {
    Token::punct(s, false)
}

fn joint(s: &str) -> Token {
    Token::punct(s, true)
}

fn err(tokens: &[Token]) -> ParseError {
    match Args::parse(tokens) {
        Ok(_) => panic!("expected a parse error"),
        Err(e) => e,
    }
}

fn at(kind: ArgsError, position: usize) -> ParseError {
    ParseError { kind, position }
}

fn rendered(g: &[Token]) -> String {
    render_range(g, 0, g.len())
}

fn mock_lifetime_generics() -> Vec<Token> {
    vec![p("<"), joint("'"), id("a"), p(">")]
}

#[test]
fn empty() {
    assert_eq!(err(&[]), at(ArgsError::Empty, 0));
}

#[test]
fn not_ident_first() {
    assert_eq!(err(&[Token::literal("1")]), at(ArgsError::NotIdent, 0));
}

#[test]
fn single() {
    assert_eq!(err(&[id("Mock")]), at(ArgsError::Single, 1));
}

#[test]
fn not_comma() {
    assert_eq!(err(&[id("Mock"), p(".")]), at(ArgsError::NotComma, 1));
}

#[test]
fn invalid_omit() {
    assert_eq!(err(&[id("Mock"), p(",")]), at(ArgsError::InvalidOmit, 2));
}

#[test]
fn not_ident_second() {
    let tokens = [id("Mock"), p(","), Token::literal("1")];
    assert_eq!(err(&tokens), at(ArgsError::NotIdent, 2));
}

#[test]
fn ok() {
    let args = Args::parse(&[id("Mock"), p(","), id("MockError")]).unwrap();
    assert_eq!(args.get_parsable().text, "Mock");
    assert_eq!(args.get_error().text, "MockError");
    assert!(args.get_generics().is_none());
}

#[test]
fn ok_with_generics() {
    let mut tokens = vec![id("Mock")];
    tokens.extend(mock_lifetime_generics());
    tokens.push(p(","));
    tokens.push(id("MockError"));
    let args = Args::parse(&tokens).unwrap();
    assert_eq!(args.get_parsable().text, "Mock");
    let target_generics = args.get_generics().as_ref().unwrap();
    assert_eq!(rendered(target_generics), "< 'a >");
    assert_eq!(args.get_error().text, "MockError");
}

#[test]
fn too_many() {
    let tokens = [id("Mock"), p(","), id("MockError"), p(","), id("Something")];
    assert_eq!(err(&tokens), at(ArgsError::TooMany, 3));
}

#[test]
fn keyword_is_not_an_ident() {
    assert_eq!(err(&[id("fn"), p(","), id("E")]), at(ArgsError::NotIdent, 0));
    assert_eq!(err(&[id("_"), p(","), id("E")]), at(ArgsError::NotIdent, 0));
    assert_eq!(err(&[id("Mock"), p(","), id("Self")]), at(ArgsError::NotIdent, 2));
}

#[test]
fn raw_ident_is_an_ident() {
    let args = Args::parse(&[id("r#fn"), p(","), id("E")]).unwrap();
    assert_eq!(args.get_parsable().text, "r#fn");
}

#[test]
fn literal_second_slot_after_generics() {
    let tokens = [id("Mock"), p("<"), id("T"), p(">"), p(","), Token::literal("2")];
    assert_eq!(err(&tokens), at(ArgsError::NotIdent, 5));
}

#[test]
fn failed_generics_consume_nothing() {
    let tokens = [id("Mock"), p("<"), Token::literal("1"), p(">"), p(","), id("E")];
    assert_eq!(err(&tokens), at(ArgsError::NotComma, 1));
}

#[test]
fn unclosed_generics_is_not_comma() {
    let tokens = [id("Mock"), p("<"), id("T"), p(","), id("E")];
    assert_eq!(err(&tokens), at(ArgsError::NotComma, 1));
}

#[test]
fn group_after_first_ident_is_not_comma() {
    let tokens = [id("Mock"), Token::group("(a)"), p(","), id("E")];
    assert_eq!(err(&tokens), at(ArgsError::NotComma, 1));
}

#[test]
fn extra_close_after_generics_is_not_comma() {
    let tokens = [id("Mock"), p("<"), id("T"), p(">"), p(">"), p(","), id("E")];
    assert_eq!(err(&tokens), at(ArgsError::NotComma, 4));
}

#[test]
fn generics_running_to_the_end_is_not_comma() {
    let tokens = [id("Mock"), p("<"), id("T"), p(">")];
    assert_eq!(err(&tokens), at(ArgsError::NotComma, 4));
}

#[test]
fn generics_with_several_params() {
    let tokens = [
        id("Mock"),
        p("<"),
        joint("'"),
        id("a"),
        p(","),
        id("T"),
        p(":"),
        id("Clone"),
        p(","),
        id("const"),
        id("N"),
        p(":"),
        id("usize"),
        p(">"),
        p(","),
        id("MockError"),
    ];
    let args = Args::parse(&tokens).unwrap();
    let g = args.get_generics().as_ref().unwrap();
    assert_eq!(g.len(), 13);
    assert_eq!(rendered(g), "< 'a , T : Clone , const N : usize >");
    assert_eq!(args.get_error().text, "MockError");
}

#[test]
fn surplus_after_pair_with_generics() {
    let mut tokens = vec![id("Mock")];
    tokens.extend(mock_lifetime_generics());
    tokens.extend([p(","), id("MockError"), Token::literal("7")]);
    assert_eq!(err(&tokens), at(ArgsError::TooMany, 7));
}

#[test]
fn surplus_of_any_kind_is_too_many() {
    for extra in [p(","), id("X"), Token::literal("1"), Token::group("{}")] {
        let tokens = [id("Mock"), p(","), id("MockError"), extra];
        assert_eq!(err(&tokens), at(ArgsError::TooMany, 3));
    }
}

#[test]
fn parse_twice_gives_the_same_args() {
    let mut tokens = vec![id("Mock")];
    tokens.extend(mock_lifetime_generics());
    tokens.extend([p(","), id("MockError")]);
    let a = Args::parse(&tokens).unwrap();
    let b = Args::parse(&tokens).unwrap();
    assert_eq!(a.get_parsable().text, b.get_parsable().text);
    assert_eq!(a.get_error().text, b.get_error().text);
    let ga = rendered(a.get_generics().as_ref().unwrap());
    let gb = rendered(b.get_generics().as_ref().unwrap());
    assert_eq!(ga, gb);
    let bad = [id("Mock"), p(".")];
    assert_eq!(err(&bad), err(&bad));
}

#[test]
fn each_malformed_input_has_one_kind() {
    let cases: Vec<(Vec<Token>, ParseError)> = vec![
        (vec![], at(ArgsError::Empty, 0)),
        (vec![p(",")], at(ArgsError::NotIdent, 0)),
        (vec![id("A")], at(ArgsError::Single, 1)),
        (vec![id("A"), id("B")], at(ArgsError::NotComma, 1)),
        (vec![id("A"), p(",")], at(ArgsError::InvalidOmit, 2)),
        (vec![id("A"), p(","), p(",")], at(ArgsError::NotIdent, 2)),
        (vec![id("A"), p(","), id("B"), id("C")], at(ArgsError::TooMany, 3)),
    ];
    for (tokens, expected) in cases {
        assert_eq!(err(&tokens), expected);
    }
}

#[test]
fn messages() {
    assert_eq!(ArgsError::Empty.message(), "The macro needs two ident as args.");
    assert_eq!(ArgsError::NotComma.message(), "The macro needs to separate with comma.");
    assert_eq!(ArgsError::Single.message(), "The macro needs two.");
    assert_eq!(ArgsError::NotIdent.message(), "The macro needs idents.");
    assert_eq!(ArgsError::InvalidOmit.message(), "The macro needs an ident after comma too.");
    assert_eq!(ArgsError::TooMany.message(), "The macro needs only two idents as args.");
}

#[test]
fn render_glues_joint_punctuation() {
    let tokens = [id("a"), joint(":"), p(":"), id("b"), Token::group("(x)")];
    assert_eq!(rendered(&tokens), "a :: b (x)");
    assert_eq!(render_range(&tokens, 1, 3), "::");
    assert_eq!(render_range(&tokens, 2, 2), "");
}

#[test]
fn synthesize_plain() {
    let args = Args::parse(&[id("Mock"), p(","), id("MockError")]).unwrap();
    assert_eq!(
        synthesize(&args),
        "type Assert = assert_parse::Assert<Mock, MockError>;\n\n\
         #[rstest::fixture]\nfn assert() -> Assert {\n    assert_parse::make_assert()\n}\n"
    );
}

#[test]
fn register_assert_with_generics() {
    let mut tokens = vec![id("Mock")];
    tokens.extend(mock_lifetime_generics());
    tokens.extend([p(","), id("MockError")]);
    assert_eq!(
        register_assert(&tokens).unwrap(),
        "type Assert = assert_parse::Assert<Mock< 'a >, MockError>;\n\n\
         #[rstest::fixture]\nfn assert() -> Assert {\n    assert_parse::make_assert()\n}\n"
    );
}

#[test]
fn register_assert_refuses() {
    let tokens = [id("Mock"), p(","), id("MockError"), p(","), id("Something")];
    assert_eq!(register_assert(&tokens), Err(at(ArgsError::TooMany, 3)));
    assert_eq!(register_assert(&[]), Err(at(ArgsError::Empty, 0)));
}

#[test]
fn parse_decided_follows_the_verdicts() {
    let tokens = [id("Mock"), p("<"), id("T"), p(">"), p(","), id("MockError")];
    let names = [true, false, true, false, false, true];
    let args = Args::parse_decided(&tokens, &names, 3).unwrap();
    assert_eq!(rendered(args.get_generics().as_ref().unwrap()), "< T >");
    assert_eq!(Args::parse_decided(&tokens, &names, 0).err(), Some(at(ArgsError::NotComma, 1)));
    let not_names = [false, false, true, false, false, true];
    assert_eq!(Args::parse_decided(&tokens, &not_names, 3).err(), Some(at(ArgsError::NotIdent, 0)));
    let second_not_name = [true, false, true, false, false, false];
    assert_eq!(
        Args::parse_decided(&tokens, &second_not_name, 3).err(),
        Some(at(ArgsError::NotIdent, 5))
    );
}
