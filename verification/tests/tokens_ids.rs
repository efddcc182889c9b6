use para::token::{
    i64_to_TokenType, str_as_usize, str_view_from_str, string_to_tokens, LR_Type, ParseToken,
};

fn chars_of(text: &str) -> Vec<char> {
    text.chars().collect()
}

fn kinds(tokens: &[ParseToken]) -> Vec<LR_Type> {
    tokens.iter().map(|t| t.token_type).collect()
}

#[test]
fn token_type_codes_decode() {
    assert_eq!(i64_to_TokenType(0), Ok(LR_Type::TokenPlus));
    assert_eq!(i64_to_TokenType(7), Ok(LR_Type::TokenNumber));
    assert_eq!(i64_to_TokenType(8), Ok(LR_Type::TokenId));
    assert_eq!(i64_to_TokenType(15), Ok(LR_Type::ExprVar));
    assert_eq!(i64_to_TokenType(16), Err("Invalid token type"));
    assert_eq!(i64_to_TokenType(-1), Err("Invalid token type"));
}

#[test]
fn tokenizer_splits_expression() {
    let input = chars_of("x2 = 1 + 23");
    let mut out: Vec<ParseToken> = Vec::new();
    assert_eq!(string_to_tokens(&input, input.len(), &mut out), Ok(()));
    assert_eq!(
        kinds(&out),
        vec![
            LR_Type::TokenId,
            LR_Type::TokenEquals,
            LR_Type::TokenNumber,
            LR_Type::TokenPlus,
            LR_Type::TokenNumber,
            LR_Type::TokenEnd,
        ]
    );
    assert_eq!((out[0].start, out[0].length), (0, 2));
    assert_eq!((out[1].start, out[1].length), (3, 1));
    assert_eq!((out[2].start, out[2].length), (5, 1));
    assert_eq!((out[3].start, out[3].length), (7, 1));
    assert_eq!((out[4].start, out[4].length), (9, 2));
}

#[test]
fn tokenizer_handles_operators_and_parens() {
    let input = chars_of("(a-b)*c/d");
    let mut out: Vec<ParseToken> = Vec::new();
    assert_eq!(string_to_tokens(&input, input.len(), &mut out), Ok(()));
    assert_eq!(
        kinds(&out),
        vec![
            LR_Type::TokenOpen,
            LR_Type::TokenId,
            LR_Type::TokenMinus,
            LR_Type::TokenId,
            LR_Type::TokenClose,
            LR_Type::TokenTimes,
            LR_Type::TokenId,
            LR_Type::TokenDivide,
            LR_Type::TokenId,
            LR_Type::TokenEnd,
        ]
    );
}

#[test]
fn tokenizer_reports_unknown_character() {
    let input = chars_of("x $y");
    let mut out: Vec<ParseToken> = Vec::new();
    assert_eq!(string_to_tokens(&input, input.len(), &mut out), Err('$'));
    // The tokens found before the error were already appended; no closing
    // token follows a failed scan.
    assert_eq!(kinds(&out), vec![LR_Type::TokenId]);
}

#[test]
fn tokenizer_of_empty_input_emits_closing_token() {
    let input: Vec<char> = Vec::new();
    let mut out: Vec<ParseToken> = Vec::new();
    assert_eq!(string_to_tokens(&input, 0, &mut out), Ok(()));
    assert_eq!(kinds(&out), vec![LR_Type::TokenEnd]);
    assert_eq!((out[0].start, out[0].length), (0, 0));
}

#[test]
fn tokenizer_appends_after_existing_tokens() {
    let input = chars_of("7");
    let mut out: Vec<ParseToken> =
        vec![ParseToken { token_type: LR_Type::TokenPlus, start: 0, length: 1 }];
    assert_eq!(string_to_tokens(&input, 1, &mut out), Ok(()));
    assert_eq!(kinds(&out), vec![LR_Type::TokenPlus, LR_Type::TokenNumber, LR_Type::TokenEnd]);
}

#[test]
fn string_views_compare_by_content() {
    let a = str_view_from_str("sin");
    let b = str_view_from_str("sin");
    let c = str_view_from_str("cos");
    let d = str_view_from_str("sine");
    assert!(a == b);
    assert!(a != c);
    assert!(a != d);
    assert_eq!(a.bytes, vec![b's', b'i', b'n']);
}

#[test]
fn widget_ids_are_stable_and_distinct() {
    let first = str_as_usize("my_text_box");
    let again = str_as_usize("my_text_box");
    assert_eq!(first, again);
    let other = str_as_usize("my_output_string");
    assert_ne!(first, other);
    // Per-instance offsets keep sibling widgets apart.
    assert_ne!(first + 1, first);
}
