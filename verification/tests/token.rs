use ana_lexer::{Token, EOF};

fn all_tokens() -> Vec<(Token, &'static str, &'static str)> {
    vec![
        (Token::Assign, "=", "assign"),
        (Token::Asterisk, "*", "asterisk"),
        (Token::Bang, "!", "bang"),
        (Token::Comma, ",", "comma"),
        (Token::Else, "else", "else"),
        (Token::Eof, "", "eof"),
        (Token::Eq, "==", "eq"),
        (Token::False, "false", "false"),
        (Token::Function, "fn", "function"),
        (Token::Gt, ">", "gt"),
        (Token::Ident("five".into()), "five", "ident"),
        (Token::If, "if", "if"),
        (Token::Illegal("@".into()), "@", "illegal"),
        (Token::Int("10".into()), "10", "int"),
        (Token::Lbrace, "{", "lbrace"),
        (Token::Let, "let", "let"),
        (Token::Lparen, "(", "lparen"),
        (Token::Lt, "<", "lt"),
        (Token::Minus, "-", "minus"),
        (Token::NotEq, "!=", "noteq"),
        (Token::Plus, "+", "plus"),
        (Token::Rbrace, "}", "rbrace"),
        (Token::Return, "return", "return"),
        (Token::Rparen, ")", "rparen"),
        (Token::Semicolon, ";", "semicolon"),
        (Token::Slash, "/", "slash"),
        (Token::True, "true", "true"),
    ]
}

#[test]
fn literal_of_every_token() {
    for (token, literal, _) in all_tokens() {
        assert_eq!(token.literal(), literal);
    }
}

#[test]
fn literal_of_a_payload_is_the_payload() {
    assert_eq!(Token::Ident("x".into()).literal(), "x");
    assert_eq!(Token::Ident("\u{e9}t\u{e9}".into()).literal(), "\u{e9}t\u{e9}");
    assert_eq!(Token::Int("0042".into()).literal(), "0042");
    assert_eq!(Token::Illegal("\u{20ac}".into()).literal(), "\u{20ac}");
    assert_eq!(Token::Ident(String::new()).literal(), "");
}

#[test]
fn end_of_input_has_the_empty_literal() {
    assert_eq!(Token::Eof.literal(), "");
    assert_eq!(EOF.literal(), "");
}

#[test]
fn category_of_every_token() {
    for (token, _, category) in all_tokens() {
        assert_eq!(token.category(), category);
    }
}

#[test]
fn to_string_is_the_literal() {
    for (token, literal, _) in all_tokens() {
        assert_eq!(token.to_string(), literal);
    }
}

#[test]
fn eof_constant() {
    assert_eq!(EOF, Token::Eof);
    assert!(EOF == Token::Eof);
    assert!(Token::Eof == EOF);
}

#[test]
fn only_end_of_input_equals_eof() {
    for (token, _, _) in all_tokens() {
        assert_eq!(token == EOF, matches!(token, Token::Eof));
    }
    assert!(Token::Ident("".into()) != EOF);
    assert!(Token::Ident("eof".into()) != EOF);
    assert!(Token::Illegal("".into()) != EOF);
}

#[test]
fn equality_compares_every_pair_of_tokens() {
    let left = all_tokens();
    let right = all_tokens();
    for (i, (a, _, _)) in left.iter().enumerate() {
        for (j, (b, _, _)) in right.iter().enumerate() {
            assert_eq!(a == b, i == j);
            assert_eq!(a != b, i != j);
        }
    }
}

#[test]
fn equality_is_by_variant_and_payload() {
    assert_eq!(Token::Ident("x".into()), Token::Ident("x".into()));
    assert_ne!(Token::Ident("x".into()), Token::Ident("y".into()));
    assert_ne!(Token::Ident("5".into()), Token::Int("5".into()));
    assert_ne!(Token::Illegal("=".into()), Token::Assign);
    assert_ne!(Token::Ident("let".into()), Token::Let);
    assert_eq!(Token::Plus, Token::Plus);
    assert_ne!(Token::Plus, Token::Minus);
    assert_ne!(Token::Eq, Token::Assign);
}

#[test]
fn debug_rendering_of_fixed_tokens() {
    assert_eq!(Token::Assign.to_debug_string(), "Token { type: \"assign\", literal: \"=\" }");
    assert_eq!(Token::Let.to_debug_string(), "Token { type: \"let\", literal: \"let\" }");
    assert_eq!(Token::Function.to_debug_string(), "Token { type: \"function\", literal: \"fn\" }");
    assert_eq!(Token::NotEq.to_debug_string(), "Token { type: \"noteq\", literal: \"!=\" }");
    assert_eq!(Token::Eof.to_debug_string(), "Token { type: \"eof\", literal: \"\" }");
}

#[test]
fn debug_rendering_of_payloads() {
    assert_eq!(
        Token::Ident("five".into()).to_debug_string(),
        "Token { type: \"ident\", literal: \"five\" }"
    );
    assert_eq!(
        Token::Int("10".into()).to_debug_string(),
        "Token { type: \"int\", literal: \"10\" }"
    );
    assert_eq!(
        Token::Illegal("@".into()).to_debug_string(),
        "Token { type: \"illegal\", literal: \"@\" }"
    );
}

#[test]
fn debug_rendering_escapes_as_debug_does() {
    assert_eq!(
        Token::Illegal("\"".into()).to_debug_string(),
        "Token { type: \"illegal\", literal: \"\\\"\" }"
    );
    assert_eq!(
        Token::Illegal("\\".into()).to_debug_string(),
        "Token { type: \"illegal\", literal: \"\\\\\" }"
    );
    assert_eq!(
        Token::Illegal("\u{0}".into()).to_debug_string(),
        "Token { type: \"illegal\", literal: \"\\0\" }"
    );
    assert_eq!(
        Token::Illegal("'".into()).to_debug_string(),
        "Token { type: \"illegal\", literal: \"'\" }"
    );
}

#[test]
fn debug_rendering_of_every_token() {
    for (token, literal, category) in all_tokens() {
        let expected = format!("Token {{ type: {:?}, literal: {:?} }}", category, literal);
        assert_eq!(token.to_debug_string(), expected);
    }
}

#[test]
fn debug_fmt_takes_the_category_as_given() {
    assert_eq!(
        Token::Plus.debug_fmt("operator"),
        "Token { type: \"operator\", literal: \"+\" }"
    );
    assert_eq!(
        Token::Ident("x".into()).debug_fmt(""),
        "Token { type: \"\", literal: \"x\" }"
    );
    assert_eq!(
        Token::Ident("x".into()).debug_fmt("a\"b"),
        "Token { type: \"a\\\"b\", literal: \"x\" }"
    );
}
