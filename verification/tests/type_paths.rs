use covey::field_model::{schema_field, DefaultValue, FieldCheck, FieldDefault};
use covey::manifest::{SchemaFilePath, SchemaText};
use std::collections::HashMap;

use covey::manifest::{schema_type_from_str, SchemaList, SchemaMap, SchemaStruct, SchemaType};
use covey::type_path::{schema_type_path, struct_field_type, TypePath};

fn struct_type() -> SchemaType {
    let mut fields = HashMap::new();
    fields.insert("name".to_string(), schema_type_from_str("text").unwrap());
    SchemaType::Struct(SchemaStruct { fields })
}

#[test]
fn paths_render_with_generics() {
    let p = TypePath::absolute("::std::vec::Vec".to_string()).with_generic(TypePath::relative("Item".to_string()));
    assert_eq!(p.to_text(), "::std::vec::Vec<self::Item>");
    let nested = p.nest_within("m");
    assert_eq!(nested.to_text(), "::std::vec::Vec<self::m::Item>");
    let map = TypePath::absolute("::std::collections::HashMap".to_string())
        .with_generic(TypePath::absolute("::std::string::String".to_string()))
        .with_generic(TypePath::absolute("::core::primitive::i32".to_string()));
    assert_eq!(map.to_text(), "::std::collections::HashMap<::std::string::String, ::core::primitive::i32>");
    assert_eq!(map.nest_within("m").to_text(), "::std::collections::HashMap<::std::string::String, ::core::primitive::i32>");
}

#[test]
fn plain_settings_use_standard_types() {
    assert_eq!(schema_type_path(&schema_type_from_str("int").unwrap(), "a").to_text(), "::core::primitive::i32");
    assert_eq!(schema_type_path(&schema_type_from_str("text").unwrap(), "a").to_text(), "::std::string::String");
    assert_eq!(schema_type_path(&schema_type_from_str("bool").unwrap(), "a").to_text(), "::core::primitive::bool");
    assert_eq!(schema_type_path(&schema_type_from_str("file-path").unwrap(), "a").to_text(), "::std::path::PathBuf");
    assert_eq!(schema_type_path(&schema_type_from_str("folder-path").unwrap(), "a").to_text(), "::std::path::PathBuf");
}

#[test]
fn structs_are_named_after_their_key() {
    assert_eq!(schema_type_path(&struct_type(), "config").to_text(), "self::r#Config");
    let list = SchemaType::List(SchemaList { item_type: Box::new(struct_type()), min_items: 0, unique: false });
    assert_eq!(schema_type_path(&list, "r#entries").to_text(), "::std::vec::Vec<self::r#EntriesItem>");
}

#[test]
fn field_types_live_in_the_field_module() {
    let urls = SchemaType::StringMap(SchemaMap { value_type: Box::new(struct_type()), min_items: 0 });
    assert_eq!(
        struct_field_type(&urls, "urls").to_text(),
        "::std::collections::HashMap<::std::string::String, self::r#urls::r#UrlsValue>"
    );
    assert_eq!(
        struct_field_type(&struct_type(), "thing-with-dash").to_text(),
        "self::r#thing_with_dash::r#ThingWithDash"
    );
    assert_eq!(struct_field_type(&schema_type_from_str("int").unwrap(), "extra-field").to_text(), "::core::primitive::i32");
}

#[test]
fn field_defaults_and_checks() {
    let text = SchemaType::Text(SchemaText { min_length: 2, max_length: 9, default: Some("hi".to_string()) });
    let f = schema_field(&text, "greeting");
    assert_eq!(f.ident, "r#greeting");
    assert!(matches!(&f.default, FieldDefault::Custom(DefaultValue::Text(t)) if t == "hi"));
    assert!(matches!(f.check, FieldCheck::Length(2, 9)));
    let path = SchemaType::FilePath(SchemaFilePath { extension: Some(vec!["png".to_string()]), default: None });
    let f = schema_field(&path, "icon-file");
    assert_eq!(f.ident, "r#icon_file");
    assert!(matches!(f.default, FieldDefault::Required));
    assert!(matches!(&f.check, FieldCheck::Extension(e) if e == &vec!["png".to_string()]));
    let list = SchemaType::List(SchemaList { item_type: Box::new(schema_type_from_str("int").unwrap()), min_items: 3, unique: false });
    let f = schema_field(&list, "numbers");
    assert!(matches!(f.default, FieldDefault::DefaultTrait));
    assert!(matches!(&f.check, FieldCheck::Items(3, inner) if matches!(**inner, FieldCheck::IntRange(i32::MIN, i32::MAX))));
    assert_eq!(f.type_path.to_text(), "::std::vec::Vec<::core::primitive::i32>");
    let f = schema_field(&struct_type(), "inner");
    assert!(matches!(f.default, FieldDefault::Required));
    assert!(matches!(f.check, FieldCheck::Unchecked));
}
