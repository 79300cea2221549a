use clang_model::token::{tokenize, Kind, Token};

fn kinds_and_reps(src: &str) -> Vec<(Kind, String)> {
    tokenize(src).into_iter().map(|t| (t.kind, t.rep)).collect()
}

#[test]
fn classifies_a_whole_function_definition() {
    let toks = kinds_and_reps("int main() { return 0; }");
    let expected = vec![
        (Kind::Keyword, "int"),
        (Kind::Identifier, "main"),
        (Kind::Punctuator, "("),
        (Kind::Punctuator, ")"),
        (Kind::Punctuator, "{"),
        (Kind::Keyword, "return"),
        (Kind::Literal, "0"),
        (Kind::Punctuator, ";"),
        (Kind::Punctuator, "}"),
    ];
    assert_eq!(toks.len(), expected.len());
    for (got, want) in toks.iter().zip(expected.iter()) {
        assert_eq!(got.0, want.0);
        assert_eq!(got.1, want.1);
    }
}

#[test]
fn empty_and_blank_sources_have_no_tokens() {
    assert!(tokenize("").is_empty());
    assert!(tokenize(" \t\r\n  ").is_empty());
}

#[test]
fn keywords_are_exact_spellings_only() {
    let toks = kinds_and_reps("int intx xint");
    assert_eq!(toks[0], (Kind::Keyword, "int".to_string()));
    assert_eq!(toks[1], (Kind::Identifier, "intx".to_string()));
    assert_eq!(toks[2], (Kind::Identifier, "xint".to_string()));
}

#[test]
fn string_literals_keep_spaces_and_escapes() {
    let toks = kinds_and_reps("\"a b\\\"c\" x");
    assert_eq!(toks.len(), 2);
    assert_eq!(toks[0], (Kind::Literal, "\"a b\\\"c\"".to_string()));
    assert_eq!(toks[1], (Kind::Identifier, "x".to_string()));
}

#[test]
fn char_literals_are_literals() {
    let toks = kinds_and_reps("'a' 'b'");
    assert_eq!(toks[0], (Kind::Literal, "'a'".to_string()));
    assert_eq!(toks[1], (Kind::Literal, "'b'".to_string()));
}

#[test]
fn operators_use_maximal_munch() {
    let toks = kinds_and_reps("a<<=b");
    assert_eq!(toks[0], (Kind::Identifier, "a".to_string()));
    assert_eq!(toks[1], (Kind::Operator, "<<=".to_string()));
    assert_eq!(toks[2], (Kind::Identifier, "b".to_string()));

    let toks = kinds_and_reps("x+++y");
    assert_eq!(toks[1], (Kind::Operator, "++".to_string()));
    assert_eq!(toks[2], (Kind::Operator, "+".to_string()));

    let toks = kinds_and_reps("std::size_t");
    assert_eq!(toks[0], (Kind::Identifier, "std".to_string()));
    assert_eq!(toks[1], (Kind::Operator, "::".to_string()));
    assert_eq!(toks[2], (Kind::Identifier, "size_t".to_string()));
}

#[test]
fn ellipsis_is_one_punctuator() {
    let toks = kinds_and_reps("f(int,...)");
    assert_eq!(toks[3], (Kind::Punctuator, ",".to_string()));
    assert_eq!(toks[4], (Kind::Punctuator, "...".to_string()));
    assert_eq!(toks[5], (Kind::Punctuator, ")".to_string()));
}

#[test]
fn numbers_swallow_suffixes_and_dots() {
    let toks = kinds_and_reps("0x1fUL 1.5e3 42");
    assert_eq!(toks[0], (Kind::Literal, "0x1fUL".to_string()));
    assert_eq!(toks[1], (Kind::Literal, "1.5e3".to_string()));
    assert_eq!(toks[2], (Kind::Literal, "42".to_string()));
}

#[test]
fn unknown_characters_degrade_to_punctuators() {
    let toks = kinds_and_reps("@ $");
    assert_eq!(toks[0], (Kind::Punctuator, "@".to_string()));
    assert_eq!(toks[1], (Kind::Punctuator, "$".to_string()));
}

#[test]
fn unterminated_literal_runs_to_the_end() {
    let toks = kinds_and_reps("\"abc");
    assert_eq!(toks.len(), 1);
    assert_eq!(toks[0], (Kind::Literal, "\"abc".to_string()));
}

#[test]
fn token_equality_is_structural() {
    let a = Token::new(Kind::Identifier, "x".to_string());
    let b = Token::new(Kind::Identifier, "x".to_string());
    let c = Token::new(Kind::Keyword, "x".to_string());
    let d = Token::new(Kind::Identifier, "y".to_string());
    assert!(a == b);
    assert!(a != c);
    assert!(a != d);
}
