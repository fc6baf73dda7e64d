use vstd::prelude::*;
use crate::text::TextRange;
use crate::token::StringFlavor;

verus! {

/// The fixed attribute and keyword names this grammar synthesizes on the
/// runtime-support object (`ox.cmd`, `.pipe(...)`, `bg=True`, ...).
#[derive(Clone, Copy, PartialEq, Eq, Structural, Debug)]
pub enum AttrName {
    Cmd,
    Pipe,
    Env,
    Path,
    Pattern,
    Regex,
    Invoke,
    Help,
    Superhelp,
    ListOfStrsOrCallables,
    Hide,
    Out,
    Bg,
    Writes,
    Appends,
    Reads,
}

/// The one binary operator the embedded expression subset produces.
#[derive(Clone, Copy, PartialEq, Eq, Structural, Debug)]
pub enum BinOpKind {
    Add,
}

/// A synthesized identifier, e.g. the name of a keyword argument.
#[derive(PartialEq, Eq, Debug)]
pub struct Identifier {
    pub id: AttrName,
    pub range: TextRange,
}

/// One keyword argument of a call: `arg=value`.
#[derive(PartialEq, Eq, Debug)]
pub struct Keyword {
    pub arg: Option<Identifier>,
    pub value: Expr,
    pub range: TextRange,
}

/// One `key: value` entry of a dictionary display.
#[derive(PartialEq, Eq, Debug)]
pub struct DictItem {
    pub key: Option<Expr>,
    pub value: Expr,
}

/// The argument list of a call: positional arguments then keyword arguments.
#[derive(PartialEq, Eq, Debug)]
pub struct Arguments {
    pub range: TextRange,
    pub args: Vec<Expr>,
    pub keywords: Vec<Keyword>,
}

/// An expression node of the host abstract syntax tree, restricted to the
/// node shapes this grammar reads or synthesizes. Every node carries the
/// byte range of the source text it stands for.
#[derive(PartialEq, Eq, Debug)]
pub enum Expr {
    /// A plain name, its text held as source bytes.
    Name { id: Vec<u8>, range: TextRange },
    /// An attribute access `value.attr`.
    Attribute { value: Box<Expr>, attr: AttrName, range: TextRange },
    /// A call `func(arguments)`.
    Call { func: Box<Expr>, arguments: Arguments, range: TextRange },
    /// A subscript `value[slice]`.
    Subscript { value: Box<Expr>, slice: Box<Expr>, range: TextRange },
    /// A string literal; `value` holds its content bytes.
    StringLiteral { value: Vec<u8>, flavor: StringFlavor, range: TextRange },
    /// An integer literal, held as its source digits.
    IntLiteral { digits: Vec<u8>, range: TextRange },
    /// A boolean literal.
    BooleanLiteral { value: bool, range: TextRange },
    /// A dictionary display.
    Dict { items: Vec<DictItem>, range: TextRange },
    /// A starred (iterable-unpacked) argument `*value`.
    Starred { value: Box<Expr>, range: TextRange },
    /// A binary operation `left op right`.
    BinOp { left: Box<Expr>, op: BinOpKind, right: Box<Expr>, range: TextRange },
}

/// A statement node; this grammar only ever produces expression statements.
#[derive(PartialEq, Eq, Debug)]
pub enum Stmt {
    Expr { value: Expr, range: TextRange },
}

impl Expr {
    /// The byte range the node spans.
    pub open spec fn spec_range(self) -> TextRange {
        match self {
            Expr::Name { range, .. } => range,
            Expr::Attribute { range, .. } => range,
            Expr::Call { range, .. } => range,
            Expr::Subscript { range, .. } => range,
            Expr::StringLiteral { range, .. } => range,
            Expr::IntLiteral { range, .. } => range,
            Expr::BooleanLiteral { range, .. } => range,
            Expr::Dict { range, .. } => range,
            Expr::Starred { range, .. } => range,
            Expr::BinOp { range, .. } => range,
        }
    }

    pub fn range(&self) -> (r: TextRange)
        ensures
            r == self.spec_range(),
    {
        match self {
            Expr::Name { range, .. } => *range,
            Expr::Attribute { range, .. } => *range,
            Expr::Call { range, .. } => *range,
            Expr::Subscript { range, .. } => *range,
            Expr::StringLiteral { range, .. } => *range,
            Expr::IntLiteral { range, .. } => *range,
            Expr::BooleanLiteral { range, .. } => *range,
            Expr::Dict { range, .. } => *range,
            Expr::Starred { range, .. } => *range,
            Expr::BinOp { range, .. } => *range,
        }
    }

    /// Wraps `self` as `self.name`, spanning `range`.
    pub fn attr(self, name: AttrName, range: TextRange) -> (e: Expr)
        ensures
            e matches Expr::Attribute { value, attr, range: r } && *value == self && attr
                == name && r == range,
    {
        Expr::Attribute { value: Box::new(self), attr: name, range }
    }

    /// Wraps `self` as the call `self(arguments)`, spanning `range`.
    pub fn call(self, arguments: Arguments, range: TextRange) -> (e: Expr)
        ensures
            e matches Expr::Call { func, arguments: a, range: r } && *func == self && a
                == arguments && r == range,
    {
        Expr::Call { func: Box::new(self), arguments, range }
    }

    /// Wraps `self` as a call with the given positional arguments and no
    /// keyword arguments.
    pub fn call0(self, args: Vec<Expr>, range: TextRange) -> (e: Expr)
        ensures
            e matches Expr::Call { func, arguments, range: r } && *func == self
                && arguments.args == args && arguments.keywords@ == Seq::<Keyword>::empty()
                && arguments.range == range && r == range,
    {
        let arguments = Arguments { range, args, keywords: Vec::new() };
        Expr::Call { func: Box::new(self), arguments, range }
    }

    /// Wraps `self` as a call with no arguments at all.
    pub fn call_empty(self, range: TextRange) -> (e: Expr)
        ensures
            e matches Expr::Call { func, arguments, range: r } && *func == self
                && arguments.args@ == Seq::<Expr>::empty() && arguments.keywords@
                == Seq::<Keyword>::empty() && arguments.range == range && r == range,
    {
        let arguments = Arguments { range, args: Vec::new(), keywords: Vec::new() };
        Expr::Call { func: Box::new(self), arguments, range }
    }

    /// Marks `self` as a starred (unpacked) argument.
    pub fn star(self, range: TextRange) -> (e: Expr)
        ensures
            e matches Expr::Starred { value, range: r } && *value == self && r == range,
    {
        Expr::Starred { value: Box::new(self), range }
    }
}

impl DictItem {
    /// The byte range the entry spans: from the key's start (when there is
    /// one) to the value's end.
    pub open spec fn spec_range(self) -> TextRange {
        match self.key {
            Some(k) => TextRange { start: k.spec_range().start, end: self.value.spec_range().end },
            None => self.value.spec_range(),
        }
    }

    pub fn range(&self) -> (r: TextRange)
        ensures
            r == self.spec_range(),
    {
        match &self.key {
            Some(k) => TextRange { start: k.range().start, end: self.value.range().end },
            None => self.value.range(),
        }
    }
}

/// The source bytes of the name of the runtime-support object, `ox`.
pub open spec fn ox_id() -> Seq<u8> {
    seq![111u8, 120u8]
}

/// `e` is the plain name `ox` spanning `range`.
pub open spec fn is_ox_name(e: Expr, range: TextRange) -> bool {
    e matches Expr::Name { id, range: r } && id@ == ox_id() && r == range
}

/// `e` is the attribute access `ox.<name>`, with the `ox` name spanning
/// `name_range` and the whole access spanning `range`.
pub open spec fn is_ox_attr(e: Expr, name: AttrName, name_range: TextRange, range: TextRange) -> bool {
    e matches Expr::Attribute { value, attr, range: r } && is_ox_name(*value, name_range)
        && attr == name && r == range
}

/// `e` is a string literal with the given content bytes, flavor and range.
pub open spec fn is_string_lit(e: Expr, value: Seq<u8>, flavor: StringFlavor, range: TextRange) -> bool {
    e matches Expr::StringLiteral { value: v, flavor: f, range: r } && v@ == value && f == flavor
        && r == range
}

} // verus!
