use builder::artifact::AssemblyRule;
use builder::error::GenerationError;
use builder::syntax::{
    Declaration, DeclarationBody, FieldDescriptor, FieldList, GenericArgument, PathArguments,
    PathSegment, TypeExpr, TypeShape,
};
use quote::ToTokens;

fn type_expr(ty: &syn::Type) -> TypeExpr {
    let shape = match ty {
        syn::Type::Path(named) => TypeShape::Path(
            named
                .path
                .segments
                .iter()
                .map(|segment| PathSegment {
                    ident: segment.ident.to_string(),
                    arguments: match &segment.arguments {
                        syn::PathArguments::None => PathArguments::Empty,
                        syn::PathArguments::AngleBracketed(list) => PathArguments::AngleBracketed(
                            list.args
                                .iter()
                                .map(|argument| match argument {
                                    syn::GenericArgument::Type(ty) => {
                                        GenericArgument::Type(type_expr(ty))
                                    }
                                    _ => GenericArgument::Other,
                                })
                                .collect(),
                        ),
                        syn::PathArguments::Parenthesized(_) => PathArguments::Parenthesized,
                    },
                })
                .collect(),
        ),
        _ => TypeShape::Other,
    };
    TypeExpr { tokens: ty.to_token_stream().to_string(), shape }
}

/// Parses the source of one item and writes it down as a declaration.
fn parsed(source: &str) -> Declaration {
    let item: syn::DeriveInput = syn::parse_str(source).unwrap();
    let body = match &item.data {
        syn::Data::Struct(data) => DeclarationBody::Struct(match &data.fields {
            syn::Fields::Named(fields) => FieldList::Named(
                fields
                    .named
                    .iter()
                    .map(|field| FieldDescriptor {
                        name: field.ident.as_ref().unwrap().to_string(),
                        declared_type: type_expr(&field.ty),
                    })
                    .collect(),
            ),
            syn::Fields::Unnamed(_) => FieldList::Unnamed,
            syn::Fields::Unit => FieldList::Unit,
        }),
        syn::Data::Enum(_) => DeclarationBody::Enum,
        syn::Data::Union(_) => DeclarationBody::Union,
    };
    Declaration { name: item.ident.to_string(), body }
}

/// The generated text with the white space between its tokens made even.
fn tokens_of(text: &str) -> String {
    syn::parse_file(text).unwrap().to_token_stream().to_string()
}

#[test]
fn from_the_source_of_a_record_to_the_source_of_its_builder() {
    let input = parsed(
        "pub struct Command {
            executable: String,
            args: Vec<String>,
            env: Vec<String>,
            current_dir: Option<String>,
        }",
    );
    let artifact = builder::derive(&input).unwrap();
    assert_eq!(artifact.record_name, "Command");
    assert_eq!(artifact.builder_name, "CommandBuilder");
    let rows: Vec<(&str, &str, &str, AssemblyRule)> = artifact
        .fields
        .iter()
        .map(|f| (f.name.as_str(), f.builder_type.as_str(), f.setter_type.as_str(), f.assembly))
        .collect();
    assert_eq!(
        rows,
        vec![
            ("executable", "Option<String>", "String", AssemblyRule::Require),
            ("args", "Option<Vec < String >>", "Vec < String >", AssemblyRule::Require),
            ("env", "Option<Vec < String >>", "Vec < String >", AssemblyRule::Require),
            ("current_dir", "Option < String >", "String", AssemblyRule::Keep),
        ]
    );
    let expected = "
        pub struct CommandBuilder {
            executable: Option<String>,
            args: Option<Vec<String>>,
            env: Option<Vec<String>>,
            current_dir: Option<String>,
        }
        impl Command {
            pub fn builder() -> CommandBuilder {
                CommandBuilder { executable: None, args: None, env: None, current_dir: None, }
            }
        }
        impl CommandBuilder {
            pub fn executable(&mut self, executable: String) -> &mut Self {
                self.executable = Some(executable);
                self
            }
            pub fn args(&mut self, args: Vec<String>) -> &mut Self {
                self.args = Some(args);
                self
            }
            pub fn env(&mut self, env: Vec<String>) -> &mut Self {
                self.env = Some(env);
                self
            }
            pub fn current_dir(&mut self, current_dir: String) -> &mut Self {
                self.current_dir = Some(current_dir);
                self
            }
            pub fn build(&self) -> Result<Command, Box<dyn std::error::Error>> {
                Ok(Command {
                    executable: self.executable.clone().ok_or(format!(\"Field {} not allowed None\", stringify!(executable)))?,
                    args: self.args.clone().ok_or(format!(\"Field {} not allowed None\", stringify!(args)))?,
                    env: self.env.clone().ok_or(format!(\"Field {} not allowed None\", stringify!(env)))?,
                    current_dir: self.current_dir.clone(),
                })
            }
        }";
    assert_eq!(tokens_of(&artifact.render()), tokens_of(expected));
}

#[test]
fn a_nested_option_is_unwrapped_once() {
    let input = parsed("struct Deep { value: Option<Option<u8>>, list: Option<Vec<(u8, u8)>> }");
    let artifact = builder::derive(&input).unwrap();
    assert_eq!(artifact.fields[0].builder_type, "Option < Option < u8 > >");
    assert_eq!(artifact.fields[0].setter_type, "Option < u8 >");
    assert_eq!(artifact.fields[0].assembly, AssemblyRule::Keep);
    assert_eq!(artifact.fields[1].setter_type, "Vec < (u8 , u8) >");
    assert!(syn::parse_file(&artifact.render()).is_ok());
}

#[test]
fn a_qualified_option_is_optional_too() {
    let input = parsed(
        "struct Qualified { value: std::option::Option<u8>, other: ::core::option::Option<String> }",
    );
    let artifact = builder::derive(&input).unwrap();
    assert_eq!(artifact.fields[0].assembly, AssemblyRule::Keep);
    assert_eq!(artifact.fields[0].builder_type, "std :: option :: Option < u8 >");
    assert_eq!(artifact.fields[0].setter_type, "u8");
    assert_eq!(artifact.fields[1].assembly, AssemblyRule::Keep);
    assert_eq!(artifact.fields[1].builder_type, ":: core :: option :: Option < String >");
    assert_eq!(artifact.fields[1].setter_type, "String");
    assert!(syn::parse_file(&artifact.render()).is_ok());
}

#[test]
fn a_type_reached_through_option_is_a_plain_field() {
    let input = parsed("struct Reached { value: Option::Inner, item: Option<u8>::Item }");
    let artifact = builder::derive(&input).unwrap();
    assert_eq!(artifact.fields[0].assembly, AssemblyRule::Require);
    assert_eq!(artifact.fields[0].builder_type, "Option<Option :: Inner>");
    assert_eq!(artifact.fields[0].setter_type, "Option :: Inner");
    assert_eq!(artifact.fields[1].assembly, AssemblyRule::Require);
    assert_eq!(artifact.fields[1].setter_type, "Option < u8 > :: Item");
    assert!(syn::parse_file(&artifact.render()).is_ok());
}

#[test]
fn a_type_of_ones_own_called_option_is_taken_for_optional() {
    let input = parsed("struct Misled { choice: Option<Left, Right> }");
    let artifact = builder::derive(&input).unwrap();
    assert_eq!(artifact.fields[0].assembly, AssemblyRule::Keep);
    assert_eq!(artifact.fields[0].setter_type, "Right");
}

#[test]
fn declarations_in_source_that_are_refused() {
    let failure = |source: &str| builder::derive(&parsed(source)).unwrap_err();
    assert_eq!(failure("enum Choice { Left, Right }"), GenerationError::NotAStruct);
    assert_eq!(failure("union Bits { int: u32, float: f32 }"), GenerationError::NotAStruct);
    assert_eq!(failure("struct Pair(u8, u8);"), GenerationError::UnsupportedFields);
    assert_eq!(failure("struct Marker;"), GenerationError::UnsupportedFields);
    assert_eq!(failure("struct Empty {}"), GenerationError::UnsupportedFields);
    assert_eq!(failure("struct Borrowed { text: &'static str }"), GenerationError::UnexpectedFieldType);
    assert_eq!(failure("struct Tuple { pair: (u8, u8) }"), GenerationError::UnexpectedFieldType);
    assert_eq!(failure("struct Array { bytes: [u8; 4] }"), GenerationError::UnexpectedFieldType);
    assert_eq!(failure("struct Bare { value: Option }"), GenerationError::UnresolvedOption);
    assert_eq!(failure("struct Lifetime { value: Option<'static> }"), GenerationError::UnresolvedOption);
    assert_eq!(failure("struct Constant { value: Option<3> }"), GenerationError::UnresolvedOption);
    assert_eq!(
        failure("struct Both { first: Option, second: &'static str }"),
        GenerationError::UnexpectedFieldType
    );
}
