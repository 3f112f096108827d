//! The generated artifact: what the generator hands back for one record.
//!
//! An artifact lists, field by field and in declaration order, the four
//! things that are generated for a field: the type of the builder's field,
//! its initial value (always absent), the type that the field's setter
//! takes, and what assembling the record does with the field.

use vstd::prelude::*;

verus! {

/// What assembling the record does with one field of the builder.
#[derive(Clone, Copy, Debug, PartialEq, Eq, Structural)]
pub enum AssemblyRule {
    /// The field is copied as it is: unset stays absent, and never fails.
    Keep,
    /// The field has to be set: its value is taken out, and assembling
    /// fails where there is none.
    Require,
}

/// What is generated for one field.
#[derive(Debug, PartialEq, Eq)]
pub struct GeneratedField {
    /// The field's name, which is also the name of its setter.
    pub name: String,
    /// The type of the builder's field, always an `Option`.
    pub builder_type: String,
    /// The type of the value that the setter takes.
    pub setter_type: String,
    /// What assembling does with the field.
    pub assembly: AssemblyRule,
}

/// A `GeneratedField` with its texts as sequences of characters.
pub struct GeneratedFieldView {
    pub name: Seq<char>,
    pub builder_type: Seq<char>,
    pub setter_type: Seq<char>,
    pub assembly: AssemblyRule,
}

impl View for GeneratedField {
    type V = GeneratedFieldView;

    open spec fn view(&self) -> GeneratedFieldView {
        GeneratedFieldView {
            name: self.name@,
            builder_type: self.builder_type@,
            setter_type: self.setter_type@,
            assembly: self.assembly,
        }
    }
}

/// The entries of an artifact with their texts as sequences of characters.
pub open spec fn field_views(fields: Seq<GeneratedField>) -> Seq<GeneratedFieldView> {
    Seq::new(fields.len(), |i: int| fields[i]@)
}

/// The builder generated for one record.
#[derive(Debug, PartialEq, Eq)]
pub struct GeneratedArtifact {
    /// The name of the record that is built.
    pub record_name: String,
    /// The name of the builder type.
    pub builder_name: String,
    /// One entry for each field of the record, in declaration order.
    pub fields: Vec<GeneratedField>,
}

/// A `GeneratedArtifact` with its texts as sequences of characters.
pub struct GeneratedArtifactView {
    pub record_name: Seq<char>,
    pub builder_name: Seq<char>,
    pub fields: Seq<GeneratedFieldView>,
}

impl View for GeneratedArtifact {
    type V = GeneratedArtifactView;

    open spec fn view(&self) -> GeneratedArtifactView {
        GeneratedArtifactView {
            record_name: self.record_name@,
            builder_name: self.builder_name@,
            fields: field_views(self.fields@),
        }
    }
}

} // verus!
