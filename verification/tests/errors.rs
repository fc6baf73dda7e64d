use oxipy::errors::{
    FStringErrorType, LexicalError, LexicalErrorType, ParseError, ParseErrorType,
};
use oxipy::text::TextRange;
use oxipy::token::TokenKind;

fn r(start: usize, end: usize) -> TextRange {
    TextRange { start, end }
}

#[test]
fn fstring_error_messages_are_fixed() {
    assert_eq!(FStringErrorType::UnclosedLbrace.message(), "expecting '}'");
    assert_eq!(
        FStringErrorType::InvalidConversionFlag.message(),
        "invalid conversion character"
    );
    assert_eq!(FStringErrorType::SingleRbrace.message(), "single '}' is not allowed");
    assert_eq!(FStringErrorType::UnterminatedString.message(), "unterminated string");
    assert_eq!(
        FStringErrorType::UnterminatedTripleQuotedString.message(),
        "unterminated triple-quoted string"
    );
    assert_eq!(
        FStringErrorType::LambdaWithoutParentheses.message(),
        "lambda expressions are not allowed without parentheses"
    );
}

#[test]
fn lexical_error_messages_interpolate() {
    assert_eq!(
        LexicalErrorType::UnrecognizedToken { tok: '~' }.message(),
        "Got unexpected token ~"
    );
    assert_eq!(
        LexicalErrorType::FStringError(FStringErrorType::SingleRbrace).message(),
        "f-string: single '}' is not allowed"
    );
    assert_eq!(LexicalErrorType::Eof.message(), "unexpected EOF while parsing");
    assert_eq!(
        LexicalErrorType::OtherError("boom".to_string()).message(),
        "boom"
    );
}

#[test]
fn parse_error_messages_interpolate() {
    assert_eq!(
        ParseErrorType::ExpectedToken {
            expected: TokenKind::Rbrace,
            found: TokenKind::EndOfFile
        }
        .message(),
        "expected '}', found end of file"
    );
    assert_eq!(
        ParseErrorType::DuplicateParameter("x".to_string()).message(),
        "duplicate parameter \"x\""
    );
    assert_eq!(
        ParseErrorType::DuplicateKeywordArgumentError("k".to_string()).message(),
        "duplicate keyword argument \"k\""
    );
    assert_eq!(
        ParseErrorType::UnexpectedTokenAfterAsync(TokenKind::Int).message(),
        "expected 'def', 'with' or 'for' to follow 'async', found int"
    );
    assert_eq!(
        ParseErrorType::Lexical(LexicalErrorType::Eof).message(),
        "lexical error: unexpected EOF while parsing"
    );
    assert_eq!(ParseErrorType::EmptySlice.message(), "expected index or slice expression");
}

#[test]
fn lexical_error_accessors() {
    let e = LexicalError::new(LexicalErrorType::Eof, r(3, 7));
    assert_eq!(*e.error(), LexicalErrorType::Eof);
    assert_eq!(e.location(), r(3, 7));
    assert_eq!(e.clone().into_error(), LexicalErrorType::Eof);
}

#[test]
fn lexical_error_wraps_with_location_verbatim() {
    let lex = LexicalError::new(LexicalErrorType::UnclosedStringError, r(5, 9));
    let parse: ParseError = lex.into();
    assert_eq!(parse.location, r(5, 9));
    assert_eq!(
        parse.error,
        ParseErrorType::Lexical(LexicalErrorType::UnclosedStringError)
    );
    assert_eq!(
        parse.clone().error(),
        ParseErrorType::Lexical(LexicalErrorType::UnclosedStringError)
    );
}

#[test]
fn located_messages_carry_offsets() {
    let lex = LexicalError::new(LexicalErrorType::Eof, r(12, 12));
    assert_eq!(lex.message(), "unexpected EOF while parsing at byte offset 12");
    let parse = ParseError { error: ParseErrorType::EmptySlice, location: r(3, 107) };
    assert_eq!(
        parse.message(),
        "expected index or slice expression at byte range [3, 107)"
    );
}
