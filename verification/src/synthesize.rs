//! The code synthesizer: from the fields of a record and their
//! classifications to the generated artifact.
//!
//! | classification        | builder field | initial | setter takes | assembling   |
//! |-----------------------|---------------|---------|--------------|--------------|
//! | optional, wrapping `T`| as declared   | absent  | `T`          | keeps it     |
//! | plain, of type `T`    | `Option<T>`   | absent  | `T`          | requires it  |

use vstd::prelude::*;
use vstd::string::*;
use crate::artifact::{
    AssemblyRule,
    GeneratedArtifact,
    GeneratedArtifactView,
    GeneratedField,
    GeneratedFieldView,
};
use crate::classify::FieldClassification;
use crate::error::GenerationError;
use crate::syntax::FieldDescriptor;

verus! {

/// The text of the type `Option` around a type.
pub open spec fn option_of(tokens: Seq<char>) -> Seq<char> {
    "Option<"@ + tokens + ">"@
}

/// The name of the builder of a record.
pub open spec fn builder_name_of(record_name: Seq<char>) -> Seq<char> {
    record_name + "Builder"@
}

/// Whether a classification is that of an optional field of which the
/// wrapped type is not known.
pub open spec fn is_unresolved(class: FieldClassification) -> bool {
    class matches FieldClassification::Optional { inner } && inner is None
}

/// What is generated for a field with a given classification, by the
/// table above. Nothing is generated from an unresolved classification:
/// there is no type that the setter could take.
pub open spec fn synthesized_field(field: FieldDescriptor, class: FieldClassification) -> Result<
    GeneratedFieldView,
    GenerationError,
> {
    match class {
        FieldClassification::Plain => Ok(
            GeneratedFieldView {
                name: field.name@,
                builder_type: option_of(field.declared_type.tokens@),
                setter_type: field.declared_type.tokens@,
                assembly: AssemblyRule::Require,
            },
        ),
        FieldClassification::Optional { inner: Some(inner) } => Ok(
            GeneratedFieldView {
                name: field.name@,
                builder_type: field.declared_type.tokens@,
                setter_type: inner.tokens@,
                assembly: AssemblyRule::Keep,
            },
        ),
        FieldClassification::Optional { inner: None } => Err(GenerationError::UnresolvedOption),
    }
}

/// Generates the entry of one field from its classification.
///
/// Fails with `UnresolvedOption` exactly on an optional field whose
/// wrapped type is absent.
pub fn synthesize_field(field: &FieldDescriptor, class: &FieldClassification) -> (result: Result<
    GeneratedField,
    GenerationError,
>)
    ensures
        match result {
            Ok(entry) => synthesized_field(*field, *class) == Ok::<
                GeneratedFieldView,
                GenerationError,
            >(entry@),
            Err(e) => synthesized_field(*field, *class) == Err::<
                GeneratedFieldView,
                GenerationError,
            >(e),
        },
{
    match class {
        FieldClassification::Plain => {
            let mut builder_type = String::from_str("Option<");
            builder_type.append(field.declared_type.tokens.as_str());
            builder_type.append(">");
            Ok(
                GeneratedField {
                    name: field.name.clone(),
                    builder_type,
                    setter_type: field.declared_type.tokens.clone(),
                    assembly: AssemblyRule::Require,
                },
            )
        },
        FieldClassification::Optional { inner } => match inner {
            Some(inner) => Ok(
                GeneratedField {
                    name: field.name.clone(),
                    builder_type: field.declared_type.tokens.clone(),
                    setter_type: inner.tokens.clone(),
                    assembly: AssemblyRule::Keep,
                },
            ),
            None => Err(GenerationError::UnresolvedOption),
        },
    }
}

/// The artifact generated for a record from its name, its fields and
/// their classifications. There is none when a classification is
/// unresolved; otherwise it holds one entry for each field, in the order
/// of the fields.
pub open spec fn synthesized(
    record_name: Seq<char>,
    fields: Seq<FieldDescriptor>,
    classes: Seq<FieldClassification>,
) -> Result<GeneratedArtifactView, GenerationError> {
    if exists|i: int| 0 <= i < classes.len() && is_unresolved(#[trigger] classes[i]) {
        Err(GenerationError::UnresolvedOption)
    } else {
        Ok(
            GeneratedArtifactView {
                record_name,
                builder_name: builder_name_of(record_name),
                fields: Seq::new(
                    fields.len(),
                    |i: int| synthesized_field(fields[i], classes[i])->Ok_0,
                ),
            },
        )
    }
}

/// Generates the artifact of a record.
///
/// `classes` holds the classification of each field, at the field's own
/// position. The artifact names the builder after the record and keeps
/// every field under its name and at its position. Fails with
/// `UnresolvedOption` exactly when some classification is unresolved.
pub fn synthesize(
    record_name: &String,
    fields: &Vec<FieldDescriptor>,
    classes: &Vec<FieldClassification>,
) -> (result: Result<GeneratedArtifact, GenerationError>)
    requires
        classes@.len() == fields@.len(),
    ensures
        match result {
            Ok(artifact) => synthesized(record_name@, fields@, classes@) == Ok::<
                GeneratedArtifactView,
                GenerationError,
            >(artifact@),
            Err(e) => synthesized(record_name@, fields@, classes@) == Err::<
                GeneratedArtifactView,
                GenerationError,
            >(e),
        },
{
    let mut generated: Vec<GeneratedField> = Vec::new();
    let mut i: usize = 0;
    while i < fields.len()
        invariant
            i <= fields.len(),
            classes@.len() == fields@.len(),
            generated@.len() == i,
            forall|j: int|
                0 <= j < i ==> !is_unresolved(#[trigger] classes@[j]) && generated@[j]@
                    == synthesized_field(fields@[j], classes@[j])->Ok_0,
        decreases fields.len() - i,
    {
        match synthesize_field(&fields[i], &classes[i]) {
            Ok(entry) => {
                generated.push(entry);
            },
            Err(e) => {
                return Err(e);
            },
        }
        i += 1;
    }
    let mut builder_name = record_name.clone();
    builder_name.append("Builder");
    let artifact = GeneratedArtifact {
        record_name: record_name.clone(),
        builder_name,
        fields: generated,
    };
    assert(artifact@.fields =~= Seq::new(
        fields@.len(),
        |i: int| synthesized_field(fields@[i], classes@[i])->Ok_0,
    ));
    Ok(artifact)
}

} // verus!
