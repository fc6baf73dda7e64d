use vstd::prelude::*;
use crate::text::TextRange;

verus! {

/// The lexical category of a token, as the external host lexer reports it.
/// Only the kinds this grammar extension inspects are listed.
#[derive(Clone, Copy, PartialEq, Eq, Structural, Debug, Hash)]
pub enum TokenKind {
    /// An identifier.
    Name,
    /// An integer literal.
    Int,
    /// A string literal (the token's `inner` range holds its content).
    String,
    /// The opening of an f-string.
    FStringStart,
    /// `(`
    Lpar,
    /// `)`
    Rpar,
    /// `[`
    Lsqb,
    /// `]`
    Rsqb,
    /// `{`
    Lbrace,
    /// `}`
    Rbrace,
    /// `$`
    Dollar,
    /// `$(`
    DollarLParen,
    /// `${`
    DollarLBrace,
    /// `@$(`
    AtDollarLParen,
    /// `@`
    At,
    /// `&`
    Amper,
    /// `|`
    Vbar,
    /// `>`
    Greater,
    /// `>>`
    RightShift,
    /// `<`
    Less,
    /// `?`
    Question,
    /// `+`
    Plus,
    /// A logical line break.
    Newline,
    /// Any other lexical category of the host language: the grammar never
    /// inspects it, but the bare-word rule consumes it by its range.
    Other,
    /// The end of the token stream.
    EndOfFile,
}

/// How the lexer flagged a string literal: plain, a filesystem-path string,
/// or a regex string. At most one promotion ever applies to a literal.
#[derive(Clone, Copy, PartialEq, Eq, Structural, Debug)]
pub enum StringFlavor {
    Plain,
    Path,
    Regex,
}

/// One token of the external lexer's stream: its kind, the byte range it
/// spans, and for string literals the byte range of the content between the
/// quotes (`inner`; equal to `range` for every other kind).
#[derive(Clone, Copy, PartialEq, Eq, Structural, Debug)]
pub struct Token {
    pub kind: TokenKind,
    pub range: TextRange,
    pub inner: TextRange,
    pub flavor: StringFlavor,
}

impl TokenKind {
    /// Whether this kind is a process operator: punctuation meaningful only
    /// inside subprocess syntax (pipes, redirections, backgrounding).
    pub open spec fn spec_is_proc_op(self) -> bool {
        match self {
            TokenKind::Vbar => true,
            TokenKind::Amper => true,
            TokenKind::Greater => true,
            TokenKind::RightShift => true,
            TokenKind::Less => true,
            _ => false,
        }
    }

    #[verifier::when_used_as_spec(spec_is_proc_op)]
    pub fn is_proc_op(self) -> (b: bool)
        ensures
            b == self.spec_is_proc_op(),
    {
        match self {
            TokenKind::Vbar => true,
            TokenKind::Amper => true,
            TokenKind::Greater => true,
            TokenKind::RightShift => true,
            TokenKind::Less => true,
            _ => false,
        }
    }

    /// The human-readable name of the kind, as error messages spell it.
    pub open spec fn spec_name(self) -> Seq<char> {
        match self {
            TokenKind::Name => "name"@,
            TokenKind::Int => "int"@,
            TokenKind::String => "string"@,
            TokenKind::FStringStart => "f-string start"@,
            TokenKind::Lpar => "'('"@,
            TokenKind::Rpar => "')'"@,
            TokenKind::Lsqb => "'['"@,
            TokenKind::Rsqb => "']'"@,
            TokenKind::Lbrace => "'{'"@,
            TokenKind::Rbrace => "'}'"@,
            TokenKind::Dollar => "'$'"@,
            TokenKind::DollarLParen => "'$('"@,
            TokenKind::DollarLBrace => "'${'"@,
            TokenKind::AtDollarLParen => "'@$('"@,
            TokenKind::At => "'@'"@,
            TokenKind::Amper => "'&'"@,
            TokenKind::Vbar => "'|'"@,
            TokenKind::Greater => "'>'"@,
            TokenKind::RightShift => "'>>'"@,
            TokenKind::Less => "'<'"@,
            TokenKind::Question => "'?'"@,
            TokenKind::Plus => "'+'"@,
            TokenKind::Newline => "newline"@,
            TokenKind::Other => "token"@,
            TokenKind::EndOfFile => "end of file"@,
        }
    }

    pub fn name(self) -> (r: &'static str)
        ensures
            r@ == self.spec_name(),
    {
        match self {
            TokenKind::Name => "name",
            TokenKind::Int => "int",
            TokenKind::String => "string",
            TokenKind::FStringStart => "f-string start",
            TokenKind::Lpar => "'('",
            TokenKind::Rpar => "')'",
            TokenKind::Lsqb => "'['",
            TokenKind::Rsqb => "']'",
            TokenKind::Lbrace => "'{'",
            TokenKind::Rbrace => "'}'",
            TokenKind::Dollar => "'$'",
            TokenKind::DollarLParen => "'$('",
            TokenKind::DollarLBrace => "'${'",
            TokenKind::AtDollarLParen => "'@$('",
            TokenKind::At => "'@'",
            TokenKind::Amper => "'&'",
            TokenKind::Vbar => "'|'",
            TokenKind::Greater => "'>'",
            TokenKind::RightShift => "'>>'",
            TokenKind::Less => "'<'",
            TokenKind::Question => "'?'",
            TokenKind::Plus => "'+'",
            TokenKind::Newline => "newline",
            TokenKind::Other => "token",
            TokenKind::EndOfFile => "end of file",
        }
    }
}

/// Well-formedness of one token against a source buffer of `src_len` bytes:
/// the ranges lie within the buffer and the content range lies within the
/// token's own range.
pub open spec fn token_wf(t: Token, src_len: int) -> bool {
    &&& t.range.start <= t.range.end <= src_len
    &&& t.range.start <= t.inner.start
    &&& t.inner.start <= t.inner.end
    &&& t.inner.end <= t.range.end
}

impl Token {
    /// A convenience constructor for a non-string token: its content range
    /// equals its own range and it carries no string flavor.
    pub fn plain(kind: TokenKind, start: usize, end: usize) -> (t: Token)
        requires
            start <= end,
        ensures
            t == (Token {
                kind,
                range: TextRange { start, end },
                inner: TextRange { start, end },
                flavor: StringFlavor::Plain,
            }),
    {
        Token {
            kind,
            range: TextRange { start, end },
            inner: TextRange { start, end },
            flavor: StringFlavor::Plain,
        }
    }

    /// A string token spanning `[start, end)` whose content (between the
    /// quotes) spans `[inner_start, inner_end)`.
    pub fn string(
        start: usize,
        end: usize,
        inner_start: usize,
        inner_end: usize,
        flavor: StringFlavor,
    ) -> (t: Token)
        requires
            start <= inner_start <= inner_end <= end,
        ensures
            t == (Token {
                kind: TokenKind::String,
                range: TextRange { start, end },
                inner: TextRange { start: inner_start, end: inner_end },
                flavor,
            }),
    {
        Token {
            kind: TokenKind::String,
            range: TextRange { start, end },
            inner: TextRange { start: inner_start, end: inner_end },
            flavor,
        }
    }
}

} // verus!
