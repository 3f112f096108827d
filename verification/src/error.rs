//! Why a declaration cannot be given a builder.

use vstd::prelude::*;

verus! {

/// A failure found while the declaration itself is analyzed. Any of them
/// stops the generation: no part of an artifact is produced.
#[derive(Clone, Copy, Debug, PartialEq, Eq, Structural)]
pub enum GenerationError {
    /// The declaration is not a struct.
    NotAStruct,
    /// The struct has positional fields, or no field at all.
    UnsupportedFields,
    /// A field's type is not a named path.
    UnexpectedFieldType,
    /// A field is an `Option` from which no wrapped type can be read.
    UnresolvedOption,
}

impl GenerationError {
    /// The diagnostic text of each failure.
    pub open spec fn message_text(self) -> Seq<char> {
        match self {
            GenerationError::NotAStruct => "This macro is only supported for Structures"@,
            GenerationError::UnsupportedFields =>
                "This macro is not supported for UnNamed or Unit Structures"@,
            GenerationError::UnexpectedFieldType => "unexpected field type"@,
            GenerationError::UnresolvedOption =>
                "Implementation cannot handle Option type. Code again"@,
        }
    }

    /// The diagnostic to show to whoever wrote the declaration.
    pub fn message(&self) -> (text: &'static str)
        ensures
            text@ == self.message_text(),
    {
        match self {
            GenerationError::NotAStruct => "This macro is only supported for Structures",
            GenerationError::UnsupportedFields =>
                "This macro is not supported for UnNamed or Unit Structures",
            GenerationError::UnexpectedFieldType => "unexpected field type",
            GenerationError::UnresolvedOption =>
                "Implementation cannot handle Option type. Code again",
        }
    }
}

} // verus!
