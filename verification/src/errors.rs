use vstd::prelude::*;
use vstd::string::StringExecFns;
use crate::text::TextRange;
use crate::token::TokenKind;

verus! {

/// The result of one grammar rule or combinator: a value, or the kind of
/// syntax error it hit. The caller decides whether to retry another grammar
/// alternative or to attach a location and propagate.
pub type ParseResult<T> = Result<T, ParseErrorType>;

/// How a subprocess-grammar rule ends when it does not produce a value: with
/// a user-facing syntax error, or with a breach of the internal progress
/// invariant (an unbounded parsing loop failed to consume a token). The
/// latter aborts the whole parse and is never rendered as a parse error; it
/// carries the token position at which the loop stalled.
#[derive(Clone, PartialEq, Eq, Debug)]
pub enum ParseFailure {
    Syntax(ParseErrorType),
    Stalled(usize),
}

/// The different kinds of errors that can occur while parsing an f-string.
#[derive(Clone, Copy, PartialEq, Eq, Structural, Debug)]
pub enum FStringErrorType {
    /// Expected a right brace after an opened left brace.
    UnclosedLbrace,
    /// An invalid conversion flag was encountered.
    InvalidConversionFlag,
    /// A single right brace was encountered.
    SingleRbrace,
    /// Unterminated string.
    UnterminatedString,
    /// Unterminated triple-quoted string.
    UnterminatedTripleQuotedString,
    /// A lambda expression without parentheses was encountered.
    LambdaWithoutParentheses,
}

impl FStringErrorType {
    /// The fixed human-readable text for this kind.
    pub open spec fn spec_message(self) -> Seq<char> {
        match self {
            FStringErrorType::UnclosedLbrace => "expecting '}'"@,
            FStringErrorType::InvalidConversionFlag => "invalid conversion character"@,
            FStringErrorType::SingleRbrace => "single '}' is not allowed"@,
            FStringErrorType::UnterminatedString => "unterminated string"@,
            FStringErrorType::UnterminatedTripleQuotedString => "unterminated triple-quoted string"@,
            FStringErrorType::LambdaWithoutParentheses => "lambda expressions are not allowed without parentheses"@,
        }
    }

    pub fn message(&self) -> (r: String)
        ensures
            r@ == self.spec_message(),
    {
        match self {
            FStringErrorType::UnclosedLbrace => "expecting '}'".to_owned(),
            FStringErrorType::InvalidConversionFlag => "invalid conversion character".to_owned(),
            FStringErrorType::SingleRbrace => "single '}' is not allowed".to_owned(),
            FStringErrorType::UnterminatedString => "unterminated string".to_owned(),
            FStringErrorType::UnterminatedTripleQuotedString => "unterminated triple-quoted string".to_owned(),
            FStringErrorType::LambdaWithoutParentheses => "lambda expressions are not allowed without parentheses".to_owned(),
        }
    }
}

/// The different kinds of errors that can occur during lexing, as the
/// external token source reports them.
#[derive(Clone, PartialEq, Eq, Debug)]
pub enum LexicalErrorType {
    /// Unexpected string content.
    StringError,
    /// A string literal without the closing quote.
    UnclosedStringError,
    /// Decoding of a unicode escape sequence in a string literal failed.
    UnicodeError,
    /// Missing the `{` for a unicode escape sequence.
    MissingUnicodeLbrace,
    /// Missing the `}` for a unicode escape sequence.
    MissingUnicodeRbrace,
    /// The indentation is not consistent.
    IndentationError,
    /// An unrecognized character was encountered; carries it.
    UnrecognizedToken { tok: char },
    /// An f-string error containing the [`FStringErrorType`].
    FStringError(FStringErrorType),
    /// Invalid character encountered in a byte literal.
    InvalidByteLiteral,
    /// An unexpected character was encountered after a line continuation.
    LineContinuationError,
    /// An unexpected end of file was encountered.
    Eof,
    /// A free-form fallback.
    OtherError(String),
}

/// Relies on the std `From<char>` impl for `String`: the returned string
/// holds exactly the one given character.
#[verifier::external_body]
fn char_to_string(c: char) -> (r: String)
    ensures
        r@ == seq![c],
{
    String::from(c)
}

/// The character for one decimal digit.
pub open spec fn spec_digit_char(d: int) -> char {
    ((48 + d) as u8) as char
}

/// The decimal digits of `n`, most significant first.
pub open spec fn spec_decimal(n: int) -> Seq<char>
    decreases n,
{
    if n < 10 {
        seq![spec_digit_char(if n < 0 {
            0int
        } else {
            n
        })]
    } else {
        spec_decimal(n / 10) + seq![spec_digit_char(n % 10)]
    }
}

/// Renders a byte offset in decimal.
fn decimal_string(n: usize) -> (r: String)
    ensures
        r@ == spec_decimal(n as int),
    decreases n,
{
    let d = (n % 10) as u8;
    let c = (48 + d) as char;
    if n < 10 {
        char_to_string(c)
    } else {
        let mut s = decimal_string(n / 10);
        s.append(char_to_string(c).as_str());
        s
    }
}

impl LexicalErrorType {
    /// The human-readable text for this kind; `UnrecognizedToken`
    /// interpolates the offending character and `FStringError` the wrapped
    /// kind's own text.
    pub open spec fn spec_message(self) -> Seq<char> {
        match self {
            LexicalErrorType::StringError => "Got unexpected string"@,
            LexicalErrorType::UnclosedStringError => "missing closing quote in string literal"@,
            LexicalErrorType::UnicodeError => "Got unexpected unicode"@,
            LexicalErrorType::MissingUnicodeLbrace => "Missing `{` in Unicode escape sequence"@,
            LexicalErrorType::MissingUnicodeRbrace => "Missing `}` in Unicode escape sequence"@,
            LexicalErrorType::IndentationError => "unindent does not match any outer indentation level"@,
            LexicalErrorType::UnrecognizedToken { tok } => "Got unexpected token "@ + seq![tok],
            LexicalErrorType::FStringError(e) => "f-string: "@ + e.spec_message(),
            LexicalErrorType::InvalidByteLiteral => "bytes can only contain ASCII literal characters"@,
            LexicalErrorType::LineContinuationError => "Expected a newline after line continuation character"@,
            LexicalErrorType::Eof => "unexpected EOF while parsing"@,
            LexicalErrorType::OtherError(s) => s@,
        }
    }

    pub fn message(&self) -> (r: String)
        ensures
            r@ == self.spec_message(),
    {
        match self {
            LexicalErrorType::StringError => "Got unexpected string".to_owned(),
            LexicalErrorType::UnclosedStringError => "missing closing quote in string literal".to_owned(),
            LexicalErrorType::UnicodeError => "Got unexpected unicode".to_owned(),
            LexicalErrorType::MissingUnicodeLbrace => "Missing `{` in Unicode escape sequence".to_owned(),
            LexicalErrorType::MissingUnicodeRbrace => "Missing `}` in Unicode escape sequence".to_owned(),
            LexicalErrorType::IndentationError => "unindent does not match any outer indentation level".to_owned(),
            LexicalErrorType::UnrecognizedToken { tok } => {
                "Got unexpected token ".to_owned().concat(char_to_string(*tok).as_str())
            },
            LexicalErrorType::FStringError(e) => {
                "f-string: ".to_owned().concat(e.message().as_str())
            },
            LexicalErrorType::InvalidByteLiteral => "bytes can only contain ASCII literal characters".to_owned(),
            LexicalErrorType::LineContinuationError => "Expected a newline after line continuation character".to_owned(),
            LexicalErrorType::Eof => "unexpected EOF while parsing".to_owned(),
            LexicalErrorType::OtherError(s) => s.clone(),
        }
    }
}

/// The different kinds of errors that can occur during parsing.
#[derive(Clone, PartialEq, Eq, Debug)]
pub enum ParseErrorType {
    /// A free-form fallback.
    OtherError(String),
    /// An empty slice was found during parsing, e.g. `data[]`.
    EmptySlice,
    /// An empty global names list was found during parsing.
    EmptyGlobalNames,
    /// An empty nonlocal names list was found during parsing.
    EmptyNonlocalNames,
    /// An empty delete targets list was found during parsing.
    EmptyDeleteTargets,
    /// An empty import names list was found during parsing.
    EmptyImportNames,
    /// An empty type parameter list was found during parsing.
    EmptyTypeParams,
    /// An unparenthesized named expression was found where it is not allowed.
    UnparenthesizedNamedExpression,
    /// An unparenthesized tuple expression was found where it is not allowed.
    UnparenthesizedTupleExpression,
    /// An unparenthesized generator expression was found where it is not allowed.
    UnparenthesizedGeneratorExpression,
    /// An invalid usage of a lambda expression was found.
    InvalidLambdaExpressionUsage,
    /// An invalid usage of a yield expression was found.
    InvalidYieldExpressionUsage,
    /// An invalid usage of a starred expression was found.
    InvalidStarredExpressionUsage,
    /// A star pattern was found outside a sequence pattern.
    InvalidStarPatternUsage,
    /// A parameter was found after a vararg.
    ParamAfterVarKeywordParam,
    /// A non-default parameter follows a default parameter.
    NonDefaultParamAfterDefaultParam,
    /// A default value was found for a `*` or `**` parameter.
    VarParameterWithDefault,
    /// A duplicate parameter was found in a function definition or lambda.
    DuplicateParameter(String),
    /// A keyword argument was repeated.
    DuplicateKeywordArgumentError(String),
    /// An invalid expression was found in the assignment target.
    InvalidAssignmentTarget,
    /// An invalid expression was found in the named assignment target.
    InvalidNamedAssignmentTarget,
    /// An invalid expression was found in the annotated assignment target.
    InvalidAnnotatedAssignmentTarget,
    /// An invalid expression was found in the augmented assignment target.
    InvalidAugmentedAssignmentTarget,
    /// An invalid expression was found in the delete target.
    InvalidDeleteTarget,
    /// A positional argument was found after a keyword argument.
    PositionalAfterKeywordArgument,
    /// A positional argument was found after a keyword argument unpacking.
    PositionalAfterKeywordUnpacking,
    /// An iterable argument unpacking was found after keyword argument unpacking.
    InvalidArgumentUnpackingOrder,
    /// An invalid usage of iterable unpacking in a comprehension was found.
    IterableUnpackingInComprehension,
    /// Multiple simple statements on one line without a `;` separating them.
    SimpleStatementsOnSameLine,
    /// A simple statement and a compound statement on the same line.
    SimpleAndCompoundStatementOnSameLine,
    /// Expected one or more keyword parameter after a `*` separator.
    ExpectedKeywordParam,
    /// Expected a real number for a complex literal pattern.
    ExpectedRealNumber,
    /// Expected an imaginary number for a complex literal pattern.
    ExpectedImaginaryNumber,
    /// Expected an expression at the current parser location.
    ExpectedExpression,
    /// The parser expected a specific token that was not found.
    ExpectedToken { expected: TokenKind, found: TokenKind },
    /// An unexpected indentation was found during parsing.
    UnexpectedIndentation,
    /// The statement being parsed cannot be `async`.
    UnexpectedTokenAfterAsync(TokenKind),
    /// An escape command was found outside its allowed mode.
    UnexpectedIpythonEscapeCommand,
    /// An unexpected token was found at the end of an expression parsing.
    UnexpectedExpressionToken,
    /// An f-string error containing the [`FStringErrorType`].
    FStringError(FStringErrorType),
    /// The parser encountered an error during lexing.
    Lexical(LexicalErrorType),
}

impl ParseErrorType {
    /// The human-readable text for this kind. `DuplicateParameter` and
    /// `DuplicateKeywordArgumentError` interpolate the offending name,
    /// `ExpectedToken` and `UnexpectedTokenAfterAsync` the token kinds, and
    /// the two wrapping variants the wrapped kind's own text.
    pub open spec fn spec_message(self) -> Seq<char> {
        match self {
            ParseErrorType::OtherError(s) => s@,
            ParseErrorType::EmptySlice => "expected index or slice expression"@,
            ParseErrorType::EmptyGlobalNames => "global statement must have at least one name"@,
            ParseErrorType::EmptyNonlocalNames => "nonlocal statement must have at least one name"@,
            ParseErrorType::EmptyDeleteTargets => "delete statement must have at least one target"@,
            ParseErrorType::EmptyImportNames => "expected one or more symbol names after import"@,
            ParseErrorType::EmptyTypeParams => "type parameter list cannot be empty"@,
            ParseErrorType::UnparenthesizedNamedExpression => "unparenthesized named expression cannot be used here"@,
            ParseErrorType::UnparenthesizedTupleExpression => "unparenthesized tuple expression cannot be used here"@,
            ParseErrorType::UnparenthesizedGeneratorExpression => "unparenthesized generator expression cannot be used here"@,
            ParseErrorType::InvalidLambdaExpressionUsage => "lambda expression cannot be used here"@,
            ParseErrorType::InvalidYieldExpressionUsage => "yield expression cannot be used here"@,
            ParseErrorType::InvalidStarredExpressionUsage => "starred expression cannot be used here"@,
            ParseErrorType::InvalidStarPatternUsage => "star pattern cannot be used here"@,
            ParseErrorType::ParamAfterVarKeywordParam => "parameter cannot follow var-keyword parameter"@,
            ParseErrorType::NonDefaultParamAfterDefaultParam => "parameter without a default cannot follow a parameter with a default"@,
            ParseErrorType::VarParameterWithDefault => "parameter with '*' or '**' cannot have default value"@,
            ParseErrorType::DuplicateParameter(name) => "duplicate parameter \""@ + name@ + "\""@,
            ParseErrorType::DuplicateKeywordArgumentError(name) => "duplicate keyword argument \""@ + name@ + "\""@,
            ParseErrorType::InvalidAssignmentTarget => "invalid assignment target"@,
            ParseErrorType::InvalidNamedAssignmentTarget => "invalid named assignment target"@,
            ParseErrorType::InvalidAnnotatedAssignmentTarget => "invalid annotated assignment target"@,
            ParseErrorType::InvalidAugmentedAssignmentTarget => "invalid augmented assignment target"@,
            ParseErrorType::InvalidDeleteTarget => "invalid delete target"@,
            ParseErrorType::PositionalAfterKeywordArgument => "positional argument cannot follow keyword argument"@,
            ParseErrorType::PositionalAfterKeywordUnpacking => "positional argument cannot follow keyword argument unpacking"@,
            ParseErrorType::InvalidArgumentUnpackingOrder => "iterable argument unpacking cannot follow keyword argument unpacking"@,
            ParseErrorType::IterableUnpackingInComprehension => "iterable unpacking cannot be used in a comprehension"@,
            ParseErrorType::SimpleStatementsOnSameLine => "simple statements must be separated by newlines or semicolons"@,
            ParseErrorType::SimpleAndCompoundStatementOnSameLine => "compound statements are not allowed on the same line as simple statements"@,
            ParseErrorType::ExpectedKeywordParam => "expected one or more keyword parameter after '*' separator"@,
            ParseErrorType::ExpectedRealNumber => "expected a real number in complex literal pattern"@,
            ParseErrorType::ExpectedImaginaryNumber => "expected an imaginary number in complex literal pattern"@,
            ParseErrorType::ExpectedExpression => "expected an expression"@,
            ParseErrorType::ExpectedToken { expected, found } => "expected "@ + expected.spec_name() + ", found "@ + found.spec_name(),
            ParseErrorType::UnexpectedIndentation => "unexpected indentation"@,
            ParseErrorType::UnexpectedTokenAfterAsync(t) => "expected 'def', 'with' or 'for' to follow 'async', found "@ + t.spec_name(),
            ParseErrorType::UnexpectedIpythonEscapeCommand => "IPython escape commands are only allowed in `Mode::Ipython`"@,
            ParseErrorType::UnexpectedExpressionToken => "unexpected token at the end of an expression"@,
            ParseErrorType::FStringError(e) => "f-string: "@ + e.spec_message(),
            ParseErrorType::Lexical(e) => "lexical error: "@ + e.spec_message(),
        }
    }

    pub fn message(&self) -> (r: String)
        ensures
            r@ == self.spec_message(),
    {
        match self {
            ParseErrorType::OtherError(s) => s.clone(),
            ParseErrorType::EmptySlice => "expected index or slice expression".to_owned(),
            ParseErrorType::EmptyGlobalNames => "global statement must have at least one name".to_owned(),
            ParseErrorType::EmptyNonlocalNames => "nonlocal statement must have at least one name".to_owned(),
            ParseErrorType::EmptyDeleteTargets => "delete statement must have at least one target".to_owned(),
            ParseErrorType::EmptyImportNames => "expected one or more symbol names after import".to_owned(),
            ParseErrorType::EmptyTypeParams => "type parameter list cannot be empty".to_owned(),
            ParseErrorType::UnparenthesizedNamedExpression => "unparenthesized named expression cannot be used here".to_owned(),
            ParseErrorType::UnparenthesizedTupleExpression => "unparenthesized tuple expression cannot be used here".to_owned(),
            ParseErrorType::UnparenthesizedGeneratorExpression => "unparenthesized generator expression cannot be used here".to_owned(),
            ParseErrorType::InvalidLambdaExpressionUsage => "lambda expression cannot be used here".to_owned(),
            ParseErrorType::InvalidYieldExpressionUsage => "yield expression cannot be used here".to_owned(),
            ParseErrorType::InvalidStarredExpressionUsage => "starred expression cannot be used here".to_owned(),
            ParseErrorType::InvalidStarPatternUsage => "star pattern cannot be used here".to_owned(),
            ParseErrorType::ParamAfterVarKeywordParam => "parameter cannot follow var-keyword parameter".to_owned(),
            ParseErrorType::NonDefaultParamAfterDefaultParam => "parameter without a default cannot follow a parameter with a default".to_owned(),
            ParseErrorType::VarParameterWithDefault => "parameter with '*' or '**' cannot have default value".to_owned(),
            ParseErrorType::DuplicateParameter(name) => {
                "duplicate parameter \"".to_owned().concat(name.as_str()).concat("\"")
            },
            ParseErrorType::DuplicateKeywordArgumentError(name) => {
                "duplicate keyword argument \"".to_owned().concat(name.as_str()).concat("\"")
            },
            ParseErrorType::InvalidAssignmentTarget => "invalid assignment target".to_owned(),
            ParseErrorType::InvalidNamedAssignmentTarget => "invalid named assignment target".to_owned(),
            ParseErrorType::InvalidAnnotatedAssignmentTarget => "invalid annotated assignment target".to_owned(),
            ParseErrorType::InvalidAugmentedAssignmentTarget => "invalid augmented assignment target".to_owned(),
            ParseErrorType::InvalidDeleteTarget => "invalid delete target".to_owned(),
            ParseErrorType::PositionalAfterKeywordArgument => "positional argument cannot follow keyword argument".to_owned(),
            ParseErrorType::PositionalAfterKeywordUnpacking => "positional argument cannot follow keyword argument unpacking".to_owned(),
            ParseErrorType::InvalidArgumentUnpackingOrder => "iterable argument unpacking cannot follow keyword argument unpacking".to_owned(),
            ParseErrorType::IterableUnpackingInComprehension => "iterable unpacking cannot be used in a comprehension".to_owned(),
            ParseErrorType::SimpleStatementsOnSameLine => "simple statements must be separated by newlines or semicolons".to_owned(),
            ParseErrorType::SimpleAndCompoundStatementOnSameLine => "compound statements are not allowed on the same line as simple statements".to_owned(),
            ParseErrorType::ExpectedKeywordParam => "expected one or more keyword parameter after '*' separator".to_owned(),
            ParseErrorType::ExpectedRealNumber => "expected a real number in complex literal pattern".to_owned(),
            ParseErrorType::ExpectedImaginaryNumber => "expected an imaginary number in complex literal pattern".to_owned(),
            ParseErrorType::ExpectedExpression => "expected an expression".to_owned(),
            ParseErrorType::ExpectedToken { expected, found } => {
                "expected ".to_owned().concat(expected.name()).concat(", found ").concat(found.name())
            },
            ParseErrorType::UnexpectedIndentation => "unexpected indentation".to_owned(),
            ParseErrorType::UnexpectedTokenAfterAsync(t) => {
                "expected 'def', 'with' or 'for' to follow 'async', found ".to_owned().concat(t.name())
            },
            ParseErrorType::UnexpectedIpythonEscapeCommand => "IPython escape commands are only allowed in `Mode::Ipython`".to_owned(),
            ParseErrorType::UnexpectedExpressionToken => "unexpected token at the end of an expression".to_owned(),
            ParseErrorType::FStringError(e) => {
                "f-string: ".to_owned().concat(e.message().as_str())
            },
            ParseErrorType::Lexical(e) => {
                "lexical error: ".to_owned().concat(e.message().as_str())
            },
        }
    }
}

/// An error raised by the external token source, with the byte range at
/// which it occurred.
#[derive(Clone, PartialEq, Eq, Debug)]
pub struct LexicalError {
    error: LexicalErrorType,
    location: TextRange,
}

impl LexicalError {
    /// The kind of error that occurred.
    pub closed spec fn spec_error(self) -> LexicalErrorType {
        self.error
    }

    /// The byte range at which it occurred.
    pub closed spec fn spec_location(self) -> TextRange {
        self.location
    }

    /// Creates a new `LexicalError` with the given error type and location.
    pub fn new(error: LexicalErrorType, location: TextRange) -> (r: Self)
        ensures
            r.spec_error() == error,
            r.spec_location() == location,
    {
        Self { error, location }
    }

    pub fn error(&self) -> (r: &LexicalErrorType)
        ensures
            *r == self.spec_error(),
    {
        &self.error
    }

    pub fn into_error(self) -> (r: LexicalErrorType)
        ensures
            r == self.spec_error(),
    {
        self.error
    }

    pub fn location(&self) -> (r: TextRange)
        ensures
            r == self.spec_location(),
    {
        self.location
    }

    /// The located rendering: the kind's text followed by the byte offset at
    /// which the error starts.
    pub open spec fn spec_message(self) -> Seq<char> {
        self.spec_error().spec_message() + " at byte offset "@ + spec_decimal(
            self.spec_location().start as int,
        )
    }

    pub fn message(&self) -> (r: String)
        ensures
            r@ == self.spec_message(),
    {
        self.error.message().concat(" at byte offset ").concat(
            decimal_string(self.location.start).as_str(),
        )
    }
}

/// An error raised by this grammar, with the byte range of the offending
/// token or construct.
#[derive(Clone, PartialEq, Eq, Debug)]
pub struct ParseError {
    pub error: ParseErrorType,
    pub location: TextRange,
}

impl ParseError {
    pub fn error(self) -> (r: ParseErrorType)
        ensures
            r == self.error,
    {
        self.error
    }

    /// The located rendering: the kind's text followed by the half-open byte
    /// range of the offending token or construct.
    pub open spec fn spec_message(self) -> Seq<char> {
        self.error.spec_message() + " at byte range ["@ + spec_decimal(self.location.start as int)
            + ", "@ + spec_decimal(self.location.end as int) + ")"@
    }

    pub fn message(&self) -> (r: String)
        ensures
            r@ == self.spec_message(),
    {
        self.error.message().concat(" at byte range [").concat(
            decimal_string(self.location.start).as_str(),
        ).concat(", ").concat(decimal_string(self.location.end).as_str()).concat(")")
    }
}

impl From<LexicalError> for ParseError {
    /// A lexical error converts into a parse error by wrapping its kind as
    /// `Lexical(...)` and copying its location verbatim; the location is
    /// never recomputed during this conversion.
    fn from(error: LexicalError) -> (r: ParseError) {
        ParseError {
            location: error.location,
            error: ParseErrorType::Lexical(error.error),
        }
    }
}

impl vstd::std_specs::convert::FromSpecImpl<LexicalError> for ParseError {
    open spec fn obeys_from_spec() -> bool {
        true
    }

    open spec fn from_spec(t: LexicalError) -> ParseError {
        ParseError {
            location: t.spec_location(),
            error: ParseErrorType::Lexical(t.spec_error()),
        }
    }
}

/// The propagation rule between the two error domains: wrapping a lexical
/// error preserves its kind inside `Lexical(...)` and its location byte for
/// byte.
pub proof fn lemma_lexical_wrap_preserves_location(e: LexicalError)
    ensures
        <ParseError as vstd::std_specs::convert::FromSpec<LexicalError>>::from_spec(e).location
            == e.spec_location(),
        <ParseError as vstd::std_specs::convert::FromSpec<LexicalError>>::from_spec(e).error
            == ParseErrorType::Lexical(e.spec_error()),
{
}

} // verus!
