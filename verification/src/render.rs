//! The artifact as source text: the builder type, the factory on the
//! record, one setter for each field, and the assembling `build`.
//!
//! The text holds four lists, each with one entry for each field, in
//! declaration order: the fields of the builder type, the initial values in
//! the factory, the setters, and the fields of the assembled record.

use vstd::prelude::*;
use vstd::string::*;
use crate::artifact::{
    AssemblyRule,
    GeneratedArtifact,
    GeneratedArtifactView,
    GeneratedField,
    GeneratedFieldView,
    field_views,
};

verus! {

/// The four lists of the generated text.
#[derive(Clone, Copy, Debug, PartialEq, Eq, Structural)]
pub enum Section {
    /// The fields of the builder type.
    BuilderFields,
    /// The initial values that the factory gives the builder.
    InitialValues,
    /// The setters.
    Setters,
    /// The fields of the record that `build` assembles.
    RecordFields,
}

/// The entry of one field in one of the four lists.
pub open spec fn entry_text(field: GeneratedFieldView, section: Section) -> Seq<char> {
    match section {
        Section::BuilderFields => "    "@ + field.name + ": "@ + field.builder_type + ",\n"@,
        Section::InitialValues => "            "@ + field.name + ": None,\n"@,
        Section::Setters => "    pub fn "@ + field.name + "(&mut self, "@ + field.name + ": "@
            + field.setter_type + ") -> &mut Self {\n        self."@ + field.name + " = Some("@
            + field.name + ");\n        self\n    }\n\n"@,
        Section::RecordFields => match field.assembly {
            AssemblyRule::Keep => "            "@ + field.name + ": self."@ + field.name
                + ".clone(),\n"@,
            AssemblyRule::Require => "            "@ + field.name + ": self."@ + field.name
                + ".clone().ok_or(format!(\"Field {} not allowed None\", stringify!("@
                + field.name + ")))?,\n"@,
        },
    }
}

/// One list of the generated text: the entries of all fields, in order.
pub open spec fn section_text(fields: Seq<GeneratedFieldView>, section: Section) -> Seq<char>
    decreases fields.len(),
{
    if fields.len() == 0 {
        Seq::empty()
    } else {
        section_text(fields.drop_last(), section) + entry_text(fields.last(), section)
    }
}

/// The whole generated text of an artifact.
pub open spec fn rendered(artifact: GeneratedArtifactView) -> Seq<char> {
    "pub struct "@ + artifact.builder_name + " {\n"@ + section_text(
        artifact.fields,
        Section::BuilderFields,
    ) + "}\n\nimpl "@ + artifact.record_name + " {\n    pub fn builder() -> "@
        + artifact.builder_name + " {\n        "@ + artifact.builder_name + " {\n"@ + section_text(
        artifact.fields,
        Section::InitialValues,
    ) + "        }\n    }\n}\n\nimpl "@ + artifact.builder_name + " {\n"@ + section_text(
        artifact.fields,
        Section::Setters,
    ) + "    pub fn build(&self) -> Result<"@ + artifact.record_name
        + ", Box<dyn std::error::Error>> {\n        Ok("@ + artifact.record_name + " {\n"@
        + section_text(artifact.fields, Section::RecordFields) + "        })\n    }\n}\n"@
}

/// Writes the entry of one field in one of the four lists.
pub fn render_entry(field: &GeneratedField, section: Section) -> (text: String)
    ensures
        text@ == entry_text(field@, section),
{
    let name = field.name.as_str();
    match section {
        Section::BuilderFields => {
            let mut text = String::from_str("    ");
            text.append(name);
            text.append(": ");
            text.append(field.builder_type.as_str());
            text.append(",\n");
            text
        },
        Section::InitialValues => {
            let mut text = String::from_str("            ");
            text.append(name);
            text.append(": None,\n");
            text
        },
        Section::Setters => {
            let mut text = String::from_str("    pub fn ");
            text.append(name);
            text.append("(&mut self, ");
            text.append(name);
            text.append(": ");
            text.append(field.setter_type.as_str());
            text.append(") -> &mut Self {\n        self.");
            text.append(name);
            text.append(" = Some(");
            text.append(name);
            text.append(");\n        self\n    }\n\n");
            text
        },
        Section::RecordFields => {
            let mut text = String::from_str("            ");
            text.append(name);
            text.append(": self.");
            text.append(name);
            match field.assembly {
                AssemblyRule::Keep => {
                    text.append(".clone(),\n");
                },
                AssemblyRule::Require => {
                    text.append(
                        ".clone().ok_or(format!(\"Field {} not allowed None\", stringify!(",
                    );
                    text.append(name);
                    text.append(")))?,\n");
                },
            }
            text
        },
    }
}

/// Writes one of the four lists: an entry for every field, none left out
/// and none moved.
pub fn render_section(fields: &Vec<GeneratedField>, section: Section) -> (text: String)
    ensures
        text@ == section_text(field_views(fields@), section),
{
    let ghost views = field_views(fields@);
    let mut text = String::new();
    let mut i: usize = 0;
    while i < fields.len()
        invariant
            i <= fields.len(),
            views == field_views(fields@),
            text@ == section_text(views.take(i as int), section),
        decreases fields.len() - i,
    {
        let entry = render_entry(&fields[i], section);
        text.append(entry.as_str());
        proof {
            let next = views.take(i + 1);
            assert(next.drop_last() =~= views.take(i as int));
        }
        i += 1;
    }
    assert(views.take(i as int) =~= views);
    text
}

impl GeneratedArtifact {
    /// Writes the artifact out as source text, to be put beside the
    /// declaration of the record.
    pub fn render(&self) -> (text: String)
        ensures
            text@ == rendered(self@),
    {
        let record = self.record_name.as_str();
        let builder = self.builder_name.as_str();
        let builder_fields = render_section(&self.fields, Section::BuilderFields);
        let initial_values = render_section(&self.fields, Section::InitialValues);
        let setters = render_section(&self.fields, Section::Setters);
        let record_fields = render_section(&self.fields, Section::RecordFields);
        let mut text = String::from_str("pub struct ");
        text.append(builder);
        text.append(" {\n");
        text.append(builder_fields.as_str());
        text.append("}\n\nimpl ");
        text.append(record);
        text.append(" {\n    pub fn builder() -> ");
        text.append(builder);
        text.append(" {\n        ");
        text.append(builder);
        text.append(" {\n");
        text.append(initial_values.as_str());
        text.append("        }\n    }\n}\n\nimpl ");
        text.append(builder);
        text.append(" {\n");
        text.append(setters.as_str());
        text.append("    pub fn build(&self) -> Result<");
        text.append(record);
        text.append(", Box<dyn std::error::Error>> {\n        Ok(");
        text.append(record);
        text.append(" {\n");
        text.append(record_fields.as_str());
        text.append("        })\n    }\n}\n");
        text
    }
}

} // verus!
