use builder::artifact::{AssemblyRule, GeneratedArtifact, GeneratedField};
use builder::behavior::FieldValue;
use quote::ToTokens;
use builder::render::{render_entry, render_section, Section};
use builder::syntax::{
    Declaration, DeclarationBody, FieldDescriptor, FieldList, GenericArgument, PathArguments,
    PathSegment, TypeExpr, TypeShape,
};

fn named(name: &str, arguments: PathArguments, tokens: &str) -> TypeExpr {
    TypeExpr {
        tokens: tokens.to_string(),
        shape: TypeShape::Path(vec![PathSegment { ident: name.to_string(), arguments }]),
    }
}

fn string_type() -> TypeExpr {
    named("String", PathArguments::Empty, "String")
}

fn optional_string() -> TypeExpr {
    named(
        "Option",
        PathArguments::AngleBracketed(vec![GenericArgument::Type(string_type())]),
        "Option < String >",
    )
}

fn person() -> Declaration {
    Declaration {
        name: "Person".to_string(),
        body: DeclarationBody::Struct(FieldList::Named(vec![
            FieldDescriptor { name: "name".to_string(), declared_type: string_type() },
            FieldDescriptor { name: "nickname".to_string(), declared_type: optional_string() },
        ])),
    }
}

fn required(name: &str) -> GeneratedField {
    GeneratedField {
        name: name.to_string(),
        builder_type: "Option<u8>".to_string(),
        setter_type: "u8".to_string(),
        assembly: AssemblyRule::Require,
    }
}

fn kept(name: &str) -> GeneratedField {
    GeneratedField {
        name: name.to_string(),
        builder_type: "Option < u8 >".to_string(),
        setter_type: "u8".to_string(),
        assembly: AssemblyRule::Keep,
    }
}

const PERSON_BUILDER: &str = r#"pub struct PersonBuilder {
    name: Option<String>,
    nickname: Option < String >,
}

impl Person {
    pub fn builder() -> PersonBuilder {
        PersonBuilder {
            name: None,
            nickname: None,
        }
    }
}

impl PersonBuilder {
    pub fn name(&mut self, name: String) -> &mut Self {
        self.name = Some(name);
        self
    }

    pub fn nickname(&mut self, nickname: String) -> &mut Self {
        self.nickname = Some(nickname);
        self
    }

    pub fn build(&self) -> Result<Person, Box<dyn std::error::Error>> {
        Ok(Person {
            name: self.name.clone().ok_or(format!("Field {} not allowed None", stringify!(name)))?,
            nickname: self.nickname.clone(),
        })
    }
}
"#;

/// The record that `PERSON_BUILDER` was generated for.
#[derive(Debug, PartialEq)]
pub struct Person {
    name: String,
    nickname: Option<String>,
}

// The text of `PERSON_BUILDER` once more, as code, with the field's name
// written out where the text asks the compiler for it.
pub struct PersonBuilder {
    name: Option<String>,
    nickname: Option < String >,
}

impl Person {
    pub fn builder() -> PersonBuilder {
        PersonBuilder {
            name: None,
            nickname: None,
        }
    }
}

impl PersonBuilder {
    pub fn name(&mut self, name: String) -> &mut Self {
        self.name = Some(name);
        self
    }

    pub fn nickname(&mut self, nickname: String) -> &mut Self {
        self.nickname = Some(nickname);
        self
    }

    pub fn build(&self) -> Result<Person, Box<dyn std::error::Error>> {
        Ok(Person {
            name: self.name.clone().ok_or(format!("Field {} not allowed None", "name"))?,
            nickname: self.nickname.clone(),
        })
    }
}

/// What the library's builder makes of a sequence of calls, in the terms
/// of the compiled code: the record, or the message of the failure.
fn modelled(calls: &[(usize, &str)]) -> Result<Person, String> {
    let artifact = builder::derive(&person()).unwrap();
    let mut model = artifact.builder::<String>();
    for (field, value) in calls.iter() {
        model.set(*field, value.to_string());
    }
    let record = model.build()?;
    let name = match &record[0] {
        FieldValue::Required(name) => (*name).clone(),
        FieldValue::Optional(_) => panic!("expected a required field"),
    };
    let nickname = match &record[1] {
        FieldValue::Optional(nickname) => nickname.cloned(),
        FieldValue::Required(_) => panic!("expected an optional field"),
    };
    Ok(Person { name, nickname })
}

/// What the compiled code makes of the same calls.
fn compiled(calls: &[(usize, &str)]) -> Result<Person, String> {
    let mut real = Person::builder();
    for (field, value) in calls.iter() {
        match field {
            0 => real.name(value.to_string()),
            _ => real.nickname(value.to_string()),
        };
    }
    real.build().map_err(|failure| failure.to_string())
}

#[test]
fn the_compiled_text_does_what_the_builder_of_the_library_does() {
    let sequences: Vec<Vec<(usize, &str)>> = vec![
        vec![],
        vec![(0, "Ada")],
        vec![(1, "Countess")],
        vec![(0, "Ada"), (1, "Countess")],
        vec![(1, "Countess"), (0, "Ada")],
        vec![(0, "Ada"), (0, "Grace")],
        vec![(1, "first"), (0, "Ada"), (1, "second")],
    ];
    for calls in sequences.iter() {
        assert_eq!(compiled(calls), modelled(calls));
    }
    assert_eq!(compiled(&[]), Err("Field name not allowed None".to_string()));
    assert_eq!(
        compiled(&[(0, "Ada")]),
        Ok(Person { name: "Ada".to_string(), nickname: None })
    );
}

#[test]
fn the_text_generated_for_a_record() {
    let artifact = builder::derive(&person()).unwrap();
    assert_eq!(artifact.render(), PERSON_BUILDER);
}

#[test]
fn the_text_generated_for_a_record_without_fields() {
    let artifact = GeneratedArtifact {
        record_name: "Unit".to_string(),
        builder_name: "UnitBuilder".to_string(),
        fields: vec![],
    };
    let expected = r#"pub struct UnitBuilder {
}

impl Unit {
    pub fn builder() -> UnitBuilder {
        UnitBuilder {
        }
    }
}

impl UnitBuilder {
    pub fn build(&self) -> Result<Unit, Box<dyn std::error::Error>> {
        Ok(Unit {
        })
    }
}
"#;
    assert_eq!(artifact.render(), expected);
}

#[test]
fn the_entry_of_a_field_in_each_list() {
    let field = required("level");
    assert_eq!(render_entry(&field, Section::BuilderFields), "    level: Option<u8>,\n");
    assert_eq!(render_entry(&field, Section::InitialValues), "            level: None,\n");
    assert_eq!(
        render_entry(&field, Section::Setters),
        "    pub fn level(&mut self, level: u8) -> &mut Self {\n        self.level = Some(level);\n        self\n    }\n\n"
    );
    assert_eq!(
        render_entry(&field, Section::RecordFields),
        "            level: self.level.clone().ok_or(format!(\"Field {} not allowed None\", stringify!(level)))?,\n"
    );
    assert_eq!(
        render_entry(&kept("level"), Section::RecordFields),
        "            level: self.level.clone(),\n"
    );
    assert_eq!(render_entry(&kept("level"), Section::BuilderFields), "    level: Option < u8 >,\n");
}

#[test]
fn a_list_holds_every_field_in_order() {
    let fields = vec![required("c"), kept("a"), required("b")];
    assert_eq!(
        render_section(&fields, Section::InitialValues),
        "            c: None,\n            a: None,\n            b: None,\n"
    );
    assert_eq!(
        render_section(&fields, Section::BuilderFields),
        "    c: Option<u8>,\n    a: Option < u8 >,\n    b: Option<u8>,\n"
    );
    assert_eq!(render_section(&Vec::new(), Section::Setters), "");
}

#[test]
fn the_generated_text_is_a_struct_and_two_impls() {
    let text = builder::derive(&person()).unwrap().render();
    let file = syn::parse_file(&text).unwrap();
    assert_eq!(file.items.len(), 3);

    let builder_struct = match &file.items[0] {
        syn::Item::Struct(item) => item,
        _ => panic!("expected a struct"),
    };
    assert_eq!(builder_struct.ident, "PersonBuilder");
    let fields: Vec<String> =
        builder_struct.fields.iter().map(|f| f.ident.as_ref().unwrap().to_string()).collect();
    assert_eq!(fields, vec!["name", "nickname"]);
    for field in builder_struct.fields.iter() {
        assert_eq!(field.ty.to_token_stream().to_string(), "Option < String >");
    }

    let methods_of = |item: &syn::Item| -> (String, Vec<String>) {
        match item {
            syn::Item::Impl(item) => {
                let owner = match &*item.self_ty {
                    syn::Type::Path(path) => path.path.segments[0].ident.to_string(),
                    _ => panic!("expected a named type"),
                };
                let methods = item
                    .items
                    .iter()
                    .map(|member| match member {
                        syn::ImplItem::Fn(method) => method.sig.ident.to_string(),
                        _ => panic!("expected a method"),
                    })
                    .collect();
                (owner, methods)
            }
            _ => panic!("expected an impl"),
        }
    };
    assert_eq!(methods_of(&file.items[1]), ("Person".to_string(), vec!["builder".to_string()]));
    assert_eq!(
        methods_of(&file.items[2]),
        (
            "PersonBuilder".to_string(),
            vec!["name".to_string(), "nickname".to_string(), "build".to_string()]
        )
    );
}

#[test]
fn a_setter_takes_the_wrapped_type() {
    let text = builder::derive(&person()).unwrap().render();
    let file = syn::parse_file(&text).unwrap();
    let setters = match &file.items[2] {
        syn::Item::Impl(item) => item,
        _ => panic!("expected an impl"),
    };
    for member in setters.items.iter().take(2) {
        let method = match member {
            syn::ImplItem::Fn(method) => method,
            _ => panic!("expected a method"),
        };
        let value = match &method.sig.inputs[1] {
            syn::FnArg::Typed(argument) => argument,
            _ => panic!("expected a typed argument"),
        };
        assert_eq!(value.ty.to_token_stream().to_string(), "String");
    }
}
