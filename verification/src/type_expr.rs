//! Type expressions as they stand in a field declaration.
//!
//! A type expression is kept as a tree of path segments and generic
//! arguments. Each node also keeps its spelling, so that whoever receives a
//! node can write it out again exactly as it was declared.

use vstd::prelude::*;

verus! {

/// A type expression: its spelling and its structure.
#[derive(Debug, PartialEq, Eq)]
pub struct TypeExpr {
    /// The expression as it was written, for example `Option<u32>`.
    pub spelling: String,
    /// What kind of expression it is.
    pub shape: TypeShape,
}

/// The structure of a type expression, as far as classification looks at it.
#[derive(Debug, PartialEq, Eq)]
pub enum TypeShape {
    /// A path, such as `u32`, `Vec<u8>`, `::std::string::String` or
    /// `<T as Iterator>::Item`.
    Path(TypePath),
    /// Anything that is not a path: a reference, a tuple, an array, a
    /// parenthesized type and so on.
    Other,
}

/// A path type.
#[derive(Debug, PartialEq, Eq)]
pub struct TypePath {
    /// Whether the path has a qualified self type, as in
    /// `<T as Iterator>::Item`.
    pub qualified_self: bool,
    /// Whether the path starts with `::`.
    pub leading_colon: bool,
    /// The segments of the path, in order.
    pub segments: Vec<PathSegment>,
}

/// One segment of a path: a name and the arguments that follow it.
#[derive(Debug, PartialEq, Eq)]
pub struct PathSegment {
    /// The name of the segment.
    pub ident: String,
    /// The arguments of the segment.
    pub arguments: PathArguments,
}

/// The arguments of a path segment.
#[derive(Debug, PartialEq, Eq)]
pub enum PathArguments {
    /// No arguments, as in `u32`.
    Absent,
    /// Arguments in angle brackets, as in `Vec<u8>`.
    AngleBracketed(Vec<GenericArgument>),
    /// Arguments in parentheses, as in `Fn(u8) -> u8`.
    Parenthesized,
}

/// One argument between angle brackets.
#[derive(Debug, PartialEq, Eq)]
pub enum GenericArgument {
    /// A type.
    Type(TypeExpr),
    /// A lifetime, a constant, a binding or a constraint.
    Other,
}

} // verus!
