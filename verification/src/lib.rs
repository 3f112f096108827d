//! The analysis-and-synthesis core of a builder generator: from the
//! declaration of a record type to the declaration of its builder.
//!
//! The work is done in three steps, one after the other: the analyzer
//! finds the record's named fields, the classifier tells optional fields
//! from plain ones, and the synthesizer writes down what is generated for
//! each field.
//!
//! - `syntax`: the declaration tree that is read.
//! - `analyze`, `classify`, `synthesize`: the three steps.
//! - `artifact`: what is generated, as data.
//! - `render`: what is generated, as source text.
//! - `behavior`: what the generated builder does when it runs.
//! - `laws`: what holds of every generated builder.
//! - `error`: why a declaration is refused.

use vstd::prelude::*;
use crate::analyze::{extract_fields, named_fields};
use crate::artifact::{GeneratedArtifact, GeneratedArtifactView};
use crate::classify::{classifications, classify_fields};
use crate::error::GenerationError;
use crate::syntax::Declaration;
use crate::synthesize::{synthesize, synthesized};

pub mod analyze;
pub mod artifact;
pub mod behavior;
pub mod classify;
pub mod error;
pub mod laws;
pub mod render;
pub mod syntax;
pub mod synthesize;

verus! {

/// The artifact that is generated for a declaration, or the failure that
/// the declaration ends in. A failure of an earlier step hides those of
/// the later ones.
pub open spec fn generated(input: Declaration) -> Result<GeneratedArtifactView, GenerationError> {
    match named_fields(input.body) {
        Err(e) => Err(e),
        Ok(fields) => match classifications(fields) {
            Err(e) => Err(e),
            Ok(classes) => synthesized(input.name@, fields, classes),
        },
    }
}

/// Generates the builder of a declared record.
///
/// The result is the artifact described by `generated`, and nothing of an
/// artifact where the declaration is refused: not a struct, a struct
/// without a named field, a field whose type is no named path, or an
/// optional field without a wrapped type, looked for in this order.
pub fn derive(input: &Declaration) -> (result: Result<GeneratedArtifact, GenerationError>)
    ensures
        match result {
            Ok(artifact) => generated(*input) == Ok::<GeneratedArtifactView, GenerationError>(
                artifact@,
            ),
            Err(e) => generated(*input) == Err::<GeneratedArtifactView, GenerationError>(e),
        },
{
    let fields = match extract_fields(&input.body) {
        Ok(fields) => fields,
        Err(e) => {
            return Err(e);
        },
    };
    let classes = match classify_fields(fields) {
        Ok(classes) => classes,
        Err(e) => {
            return Err(e);
        },
    };
    synthesize(&input.name, fields, &classes)
}

} // verus!
