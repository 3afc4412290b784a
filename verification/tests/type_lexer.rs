use kubgrupp::scene::type_lexer::{LexError, Token, TokenIter};

#[test]
fn lex_all() {
    let iter = TokenIter::new("  [[vec3;   5];1] ");
    let tokens: Vec<_> = iter.collect();

    assert_eq!(
        &tokens[..],
        &[
            Token::LSqBracket,
            Token::LSqBracket,
            Token::Typename("vec3"),
            Token::Semicolon,
            Token::Integer(5),
            Token::RSqBracket,
            Token::Semicolon,
            Token::Integer(1),
            Token::RSqBracket,
        ]
    );
}

#[test]
fn lex_empty_text_has_no_token() {
    let mut iter = TokenIter::new("   \t\n ");
    assert!(iter.next().is_none());
    assert!(TokenIter::new("").collect().is_empty());
}

#[test]
fn lex_space_after_name_is_an_error() {
    let tokens = TokenIter::new("float ;").collect();
    assert_eq!(tokens.len(), 2);
    assert_eq!(tokens[0], Token::Typename("float"));
    assert!(matches!(
        tokens[1],
        Token::LexerError(LexError::InvalidStart(' '))
    ));
}

#[test]
fn lex_error_does_not_advance() {
    let mut iter = TokenIter::new("?x");
    assert!(matches!(
        iter.next(),
        Some(Token::LexerError(LexError::InvalidStart('?')))
    ));
    assert!(matches!(
        iter.next(),
        Some(Token::LexerError(LexError::InvalidStart('?')))
    ));
}

#[test]
fn lex_number_bounds() {
    let tokens = TokenIter::new("18446744073709551615").collect();
    assert_eq!(&tokens[..], &[Token::Integer(u64::MAX)]);
    let tokens = TokenIter::new("18446744073709551616").collect();
    assert!(matches!(
        tokens[..],
        [Token::LexerError(LexError::IntegerTooLarge)]
    ));
    let tokens = TokenIter::new("007]").collect();
    assert_eq!(&tokens[..], &[Token::Integer(7), Token::RSqBracket]);
}

#[test]
fn lex_name_may_hold_digits() {
    let tokens = TokenIter::new("vec3x9[").collect();
    assert_eq!(&tokens[..], &[Token::Typename("vec3x9"), Token::LSqBracket]);
}

#[test]
fn token_equality_ignores_the_error() {
    assert_eq!(
        Token::LexerError(LexError::IntegerTooLarge),
        Token::LexerError(LexError::InvalidStart('x'))
    );
    assert_ne!(Token::Typename("a"), Token::Typename("b"));
    assert_ne!(Token::Integer(1), Token::Integer(2));
    assert_ne!(Token::LSqBracket, Token::RSqBracket);
}
