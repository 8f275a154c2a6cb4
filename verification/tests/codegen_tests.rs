use sitegen::codegen::{CodeGen, GenError};
use sitegen::record::PostData;
use sitegen::schema::{FieldDef, FieldType, StructDef};

fn tiny_struct() -> StructDef {
    StructDef::new("Post")
        .add_field(FieldDef::new("slug", FieldType::StaticStr).with_doc("The slug"))
        .add_field(FieldDef::new("tags", FieldType::StaticStrSlice))
}

#[test]
fn field_declaration_with_doc() {
    let f = FieldDef::new("slug", FieldType::StaticStr).with_doc("The slug");
    assert_eq!(
        f.generate_field_declaration(),
        "    /// The slug\n    pub slug: &'static str,"
    );
}

#[test]
fn field_declaration_without_doc() {
    let f = FieldDef::new("tags", FieldType::StaticStrSlice);
    assert_eq!(
        f.generate_field_declaration(),
        "    pub tags: &'static [&'static str],"
    );
}

#[test]
fn struct_definition_text() {
    assert_eq!(
        tiny_struct().generate_struct_definition(),
        "#[derive(Clone, Debug, PartialEq)]\npub struct Post {\n    /// The slug\n    pub slug: &'static str,\n    pub tags: &'static [&'static str],\n}"
    );
}

#[test]
fn instance_literal_with_escaping() {
    let d = PostData::new()
        .set_str("slug", "a\"b\\c".to_string())
        .set_str_slice("tags", vec!["x\ny".to_string(), "z".to_string()]);
    let sd = tiny_struct();
    assert_eq!(
        sitegen::codegen::generate_instance(&d, &sd).expect("instance expected"),
        "    Post {\n        slug: \"a\\\"b\\\\c\",\n        tags: &[\"x\\ny\", \"z\"],\n    }"
    );
}

#[test]
fn instance_missing_field_fails() {
    let d = PostData::new().set_str("slug", "a".to_string());
    let sd = tiny_struct();
    match sitegen::codegen::generate_instance(&d, &sd) {
        Err(GenError::MissingField { struct_name, field }) => {
            assert_eq!(struct_name, "Post");
            assert_eq!(field, "tags");
        }
        _ => panic!("expected a missing-field failure"),
    }
}

#[test]
fn generate_code_whole_module() {
    let d = PostData::new()
        .set_str("slug", "a".to_string())
        .set_str_slice("tags", vec![]);
    let g = CodeGen::new()
        .add_struct(tiny_struct())
        .add_static_array("POSTS", "Post", vec![d]);
    let code = g.generate_code().expect("code expected");
    assert!(code.starts_with("#[derive(Clone, Debug, PartialEq)]\npub struct Post {"));
    assert!(code.contains("static POSTS: &[Post] = &[\n    Post {\n        slug: \"a\",\n        tags: &[],\n    }\n];\n"));
}

#[test]
fn generate_code_unknown_element_type_fails() {
    let g = CodeGen::new()
        .add_struct(tiny_struct())
        .add_static_array("THINGS", "Thing", vec![]);
    match g.generate_code() {
        Err(GenError::UnknownElementType { element_type }) => assert_eq!(element_type, "Thing"),
        _ => panic!("expected an unknown-element-type failure"),
    }
}

#[test]
fn gen_error_messages() {
    let e = GenError::MissingField { struct_name: "Post".to_string(), field: "tags".to_string() };
    assert_eq!(e.message(), "record lacks a value for declared field: Post.tags");
    let e = GenError::UnknownElementType { element_type: "Thing".to_string() };
    assert_eq!(e.message(), "no struct definition for element type: Thing");
}
