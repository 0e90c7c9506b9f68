//! The input schema: a type definition as an ordered list of field descriptors,
//! each with its declared type and its raw annotations.
use vstd::prelude::*;

verus! {

/// The delimiter of a bracketed group of tokens.
#[derive(Clone, Copy, Debug, PartialEq, Eq, Structural)]
pub enum Delimiter {
    Paren,
    Bracket,
    Brace,
    Invisible,
}

/// One token of an annotation's argument content. Groups are flattened into
/// an `Open` token, their content, and a matching `Close` token.
#[derive(Clone, Debug)]
pub enum Token {
    Ident(String),
    Punct(char),
    /// A string literal, holding its value (escapes already resolved).
    Str(String),
    /// Any other literal, holding its source text.
    Literal(String),
    Open(Delimiter),
    Close(Delimiter),
}

/// One annotation attached to a field: its path, one entry per segment, and
/// the tokens that follow the path.
#[derive(Clone, Debug)]
pub struct Annotation {
    pub path: Vec<String>,
    pub tokens: Vec<Token>,
}

/// One generic argument of a path segment.
#[derive(Clone, Debug)]
pub enum GenericArg {
    /// A type written as a path: one entry per segment, each segment as
    /// source text, its own generic arguments included.
    Path(Vec<String>),
    /// Anything else: a lifetime, a constant, an associated-type binding, or a
    /// type that is not a path (a reference, a tuple, an array).
    Other,
}

/// What follows the identifier of a path segment.
#[derive(Clone, Debug)]
pub enum SegmentArgs {
    /// No arguments.
    Plain,
    /// Angle-bracketed arguments, `<A, B>`.
    Angle(Vec<GenericArg>),
    /// Parenthesized arguments, as in `Fn(A) -> B`.
    Paren,
}

/// One segment of a type path.
#[derive(Clone, Debug)]
pub struct PathSegment {
    pub ident: String,
    pub args: SegmentArgs,
}

/// A field's declared type.
#[derive(Clone, Debug)]
pub enum TypeExpr {
    /// A named type, `a::b::C<D>`.
    Path(Vec<PathSegment>),
    /// Any other type expression.
    Other,
}

/// One named field of a type definition.
#[derive(Clone, Debug)]
pub struct FieldDef {
    pub name: String,
    pub ty: TypeExpr,
    pub annotations: Vec<Annotation>,
}

/// One generic parameter: its declaration (`T: Clone`, `'a`) and the name by
/// which the type is applied to it (`T`, `'a`).
#[derive(Clone, Debug)]
pub struct GenericParam {
    pub decl: String,
    pub name: String,
}

/// The body of a type definition.
#[derive(Clone, Debug)]
pub enum DataKind {
    /// A struct with named fields, in declaration order.
    Named(Vec<FieldDef>),
    /// A struct with positional fields.
    Tuple,
    /// A struct with no fields and no braces.
    Unit,
    Enum,
    Union,
}

/// A type definition handed to the generator.
#[derive(Clone, Debug)]
pub struct TypeDef {
    pub name: String,
    pub params: Vec<GenericParam>,
    /// The predicates of the `where` clause, without the keyword.
    pub where_clause: Option<String>,
    pub data: DataKind,
}

} // verus!
