//! The declaration tree that the generator reads: a type declaration, its
//! fields, and the type expression of each field.

use vstd::prelude::*;

verus! {

/// One generic argument of a path segment.
#[derive(Debug, PartialEq, Eq)]
pub enum GenericArgument {
    /// A type, as `String` in `Option<String>`.
    Type(TypeExpr),
    /// Anything else between the angle brackets: a lifetime, a constant,
    /// an associated type binding or constraint.
    Other,
}

/// What follows the name in a path segment.
#[derive(Debug, PartialEq, Eq)]
pub enum PathArguments {
    /// Nothing, as in `String`.
    Empty,
    /// Arguments in angle brackets, in order, as in `Option<String>`.
    AngleBracketed(Vec<GenericArgument>),
    /// Arguments in round brackets, as in `Fn(u8) -> u8`.
    Parenthesized,
}

/// One segment of a path: a name and its arguments.
#[derive(Debug, PartialEq, Eq)]
pub struct PathSegment {
    pub ident: String,
    pub arguments: PathArguments,
}

/// How a type expression is built, as far as the generator looks into it.
#[derive(Debug, PartialEq, Eq)]
pub enum TypeShape {
    /// A named path such as `Option<String>` or `std::vec::Vec<u8>`: its
    /// segments, first to last.
    Path(Vec<PathSegment>),
    /// Any other expression: a reference, a tuple, an array, a pointer, ...
    Other,
}

/// The type expression that a field declares.
#[derive(Debug, PartialEq, Eq)]
pub struct TypeExpr {
    /// The expression's tokens as text. The generator writes them into the
    /// artifact unchanged and never looks inside them.
    pub tokens: String,
    /// The structure that the classification goes by.
    pub shape: TypeShape,
}

/// A named field: its name and its declared type.
#[derive(Debug, PartialEq, Eq)]
pub struct FieldDescriptor {
    pub name: String,
    pub declared_type: TypeExpr,
}

/// The fields of a struct.
#[derive(Debug, PartialEq, Eq)]
pub enum FieldList {
    /// Named fields between braces, in declaration order; none for `struct
    /// Empty {}`.
    Named(Vec<FieldDescriptor>),
    /// Positional fields, as in `struct Pair(u8, u8);`.
    Unnamed,
    /// No field list at all, as in `struct Marker;`.
    Unit,
}

/// What a declaration declares.
#[derive(Debug, PartialEq, Eq)]
pub enum DeclarationBody {
    Struct(FieldList),
    Enum,
    Union,
    /// An item that declares no type: a function, a trait, a constant, ...
    Other,
}

/// A parsed declaration: the name it introduces and its body.
#[derive(Debug, PartialEq, Eq)]
pub struct Declaration {
    pub name: String,
    pub body: DeclarationBody,
}

} // verus!
