//! The declaration analyzer: is this a struct with named fields, and which?
//!
//! A builder is generated for one shape of declaration only: a struct with
//! at least one field, all of them named.

use vstd::prelude::*;
use crate::error::GenerationError;
use crate::syntax::{DeclarationBody, FieldDescriptor, FieldList};

verus! {

/// The named fields of a declaration in declaration order, or the reason
/// why it has none to generate a builder from: it is no struct, or it is a
/// struct without a single named field.
pub open spec fn named_fields(body: DeclarationBody) -> Result<
    Seq<FieldDescriptor>,
    GenerationError,
> {
    match body {
        DeclarationBody::Struct(FieldList::Named(fields)) => if fields@.len() > 0 {
            Ok(fields@)
        } else {
            Err(GenerationError::UnsupportedFields)
        },
        DeclarationBody::Struct(FieldList::Unnamed) => Err(GenerationError::UnsupportedFields),
        DeclarationBody::Struct(FieldList::Unit) => Err(GenerationError::UnsupportedFields),
        DeclarationBody::Enum => Err(GenerationError::NotAStruct),
        DeclarationBody::Union => Err(GenerationError::NotAStruct),
        DeclarationBody::Other => Err(GenerationError::NotAStruct),
    }
}

/// Hands out the field list of a struct with named fields, untouched and in
/// declaration order. Anything that is not a struct is refused as
/// `NotAStruct`; a struct with positional fields, without a field list or
/// with an empty one is refused as `UnsupportedFields`.
pub fn extract_fields(body: &DeclarationBody) -> (result: Result<
    &Vec<FieldDescriptor>,
    GenerationError,
>)
    ensures
        match result {
            Ok(fields) => named_fields(*body) == Ok::<Seq<FieldDescriptor>, GenerationError>(
                fields@,
            ) && *body == DeclarationBody::Struct(FieldList::Named(*fields)),
            Err(e) => named_fields(*body) == Err::<Seq<FieldDescriptor>, GenerationError>(e),
        },
{
    match body {
        DeclarationBody::Struct(list) => match list {
            FieldList::Named(fields) => if fields.len() > 0 {
                Ok(fields)
            } else {
                Err(GenerationError::UnsupportedFields)
            },
            _ => Err(GenerationError::UnsupportedFields),
        },
        _ => Err(GenerationError::NotAStruct),
    }
}

} // verus!
