//! The type classifier: does a field's declared type mark the field as
//! optional, and if so, which type does it wrap?
//!
//! The test is made on names alone. A type counts as optional when the
//! segment that names it, the last one of its path, is called `Option`,
//! however the path is qualified and whatever that name resolves to where
//! the declaration stands.

use vstd::prelude::*;
use vstd::string::*;
use crate::error::GenerationError;
use crate::syntax::{
    FieldDescriptor,
    GenericArgument,
    PathArguments,
    PathSegment,
    TypeExpr,
    TypeShape,
};

verus! {

/// What the classifier found out about one declared type.
#[derive(Debug, PartialEq, Eq)]
pub enum FieldClassification<'a> {
    /// The field has to be set before a record can be assembled.
    Plain,
    /// The field may stay unset. `inner` is the wrapped type, absent where
    /// none could be read off the declared type.
    Optional { inner: Option<&'a TypeExpr> },
}

/// The segment that names the type: the last one of a named path. There
/// is none for a path without segments and for any expression that is no
/// named path.
pub open spec fn naming_segment(ty: TypeExpr) -> Option<PathSegment> {
    match ty.shape {
        TypeShape::Path(segments) => if segments@.len() > 0 {
            Some(segments@[segments@.len() - 1])
        } else {
            None
        },
        TypeShape::Other => None,
    }
}

/// Whether the type is called `Option`: whether its naming segment is.
pub open spec fn names_option(ty: TypeExpr) -> bool {
    match naming_segment(ty) {
        Some(segment) => segment.ident@ == "Option"@,
        None => false,
    }
}

/// The last generic argument of the naming segment, where that argument
/// is a type. Absent where the segment has no angle-bracketed arguments,
/// where the brackets are empty, and where the last argument is no type.
pub open spec fn wrapped_type(ty: TypeExpr) -> Option<TypeExpr> {
    match naming_segment(ty) {
        Some(segment) => match segment.arguments {
            PathArguments::AngleBracketed(arguments) => if arguments@.len() > 0 {
                match arguments@[arguments@.len() - 1] {
                    GenericArgument::Type(inner) => Some(inner),
                    GenericArgument::Other => None,
                }
            } else {
                None
            },
            PathArguments::Empty => None,
            PathArguments::Parenthesized => None,
        },
        None => None,
    }
}

/// Says whether a declared type marks its field as optional.
///
/// A named path is optional exactly when its last segment, the one that
/// names the type, is called `Option`; a path without segments is not.
/// Any expression that is no named path is refused as
/// `UnexpectedFieldType`.
pub fn is_option_type(ty: &TypeExpr) -> (result: Result<bool, GenerationError>)
    ensures
        ty.shape is Path ==> result == Ok::<bool, GenerationError>(names_option(*ty)),
        ty.shape is Other ==> result == Err::<bool, GenerationError>(
            GenerationError::UnexpectedFieldType,
        ),
{
    match &ty.shape {
        TypeShape::Path(segments) => {
            if segments.len() > 0 {
                let marker = String::from_str("Option");
                Ok(segments[segments.len() - 1].ident == marker)
            } else {
                Ok(false)
            }
        },
        TypeShape::Other => Err(GenerationError::UnexpectedFieldType),
    }
}

/// Reads the wrapped type off a declared type: the last generic argument
/// of the segment that names the type, provided that it is a type.
pub fn unwrap_type(ty: &TypeExpr) -> (result: Option<&TypeExpr>)
    ensures
        match result {
            Some(inner) => wrapped_type(*ty) == Some(*inner),
            None => wrapped_type(*ty) is None,
        },
{
    match &ty.shape {
        TypeShape::Path(segments) => {
            if segments.len() == 0 {
                return None;
            }
            match &segments[segments.len() - 1].arguments {
                PathArguments::AngleBracketed(arguments) => {
                    if arguments.len() == 0 {
                        return None;
                    }
                    match &arguments[arguments.len() - 1] {
                        GenericArgument::Type(inner) => Some(inner),
                        GenericArgument::Other => None,
                    }
                },
                _ => None,
            }
        },
        TypeShape::Other => None,
    }
}

/// The classification of a declared type: a function of the type
/// expression and of nothing else.
pub open spec fn classification<'a>(ty: &'a TypeExpr) -> Result<
    FieldClassification<'a>,
    GenerationError,
> {
    if ty.shape is Other {
        Err(GenerationError::UnexpectedFieldType)
    } else if names_option(*ty) {
        Ok(
            FieldClassification::Optional {
                inner: match wrapped_type(*ty) {
                    Some(inner) => Some(&inner),
                    None => None,
                },
            },
        )
    } else {
        Ok(FieldClassification::Plain)
    }
}

/// Classifies one declared type.
///
/// A named path whose last segment is called `Option` is optional, and
/// carries the wrapped type where one can be read; every other named path
/// is plain. Any expression that is no named path is refused as
/// `UnexpectedFieldType`.
pub fn classify<'a>(ty: &'a TypeExpr) -> (result: Result<FieldClassification<'a>, GenerationError>)
    ensures
        result == classification(ty),
{
    match is_option_type(ty) {
        Err(e) => Err(e),
        Ok(true) => Ok(FieldClassification::Optional { inner: unwrap_type(ty) }),
        Ok(false) => Ok(FieldClassification::Plain),
    }
}

/// The classifications of the fields of a record, one for each field and
/// in the same order. They exist when every field's type is a named path;
/// a single field of another shape makes the whole fail.
pub open spec fn classifications<'a>(fields: Seq<FieldDescriptor>) -> Result<
    Seq<FieldClassification<'a>>,
    GenerationError,
> {
    if exists|i: int| 0 <= i < fields.len() && (#[trigger] fields[i]).declared_type.shape is Other {
        Err(GenerationError::UnexpectedFieldType)
    } else {
        Ok(Seq::new(fields.len(), |i: int| classification(&fields[i].declared_type)->Ok_0))
    }
}

/// Classifies every field of a record, in declaration order.
///
/// Succeeds exactly when every declared type is a named path, with one
/// classification for each field; otherwise fails with
/// `UnexpectedFieldType`.
pub fn classify_fields<'a>(fields: &'a Vec<FieldDescriptor>) -> (result: Result<
    Vec<FieldClassification<'a>>,
    GenerationError,
>)
    ensures
        match result {
            Ok(classes) => classifications(fields@) == Ok::<
                Seq<FieldClassification<'a>>,
                GenerationError,
            >(classes@),
            Err(e) => classifications(fields@) == Err::<
                Seq<FieldClassification<'a>>,
                GenerationError,
            >(e),
        },
{
    let mut classes: Vec<FieldClassification<'a>> = Vec::new();
    let mut i: usize = 0;
    while i < fields.len()
        invariant
            i <= fields.len(),
            classes@.len() == i,
            forall|j: int|
                0 <= j < i ==> (#[trigger] fields@[j]).declared_type.shape is Path && classes@[j]
                    == classification(&fields@[j].declared_type)->Ok_0,
        decreases fields.len() - i,
    {
        match classify(&fields[i].declared_type) {
            Ok(class) => {
                classes.push(class);
            },
            Err(e) => {
                return Err(e);
            },
        }
        i += 1;
    }
    assert(classes@ =~= Seq::new(
        fields@.len(),
        |i: int| classification(&fields@[i].declared_type)->Ok_0,
    ));
    Ok(classes)
}

/// Classifying is deterministic, and goes by the shape alone: two type
/// expressions of the same shape get the same classification and, where
/// they are optional, the same wrapped type. So does one type expression
/// that is classified twice.
pub proof fn classification_is_deterministic(first: TypeExpr, second: TypeExpr)
    requires
        first.shape == second.shape,
    ensures
        names_option(first) == names_option(second),
        wrapped_type(first) == wrapped_type(second),
        classification(&first) == classification(&second),
{
}

} // verus!
