use covey::commands::{Hotkey, Key};
use covey::manifest::{
    default_commands, expected_variants, schema_type_from_str, SchemaBool, SchemaFilePath, SchemaFolderPath,
    SchemaInt, SchemaText, SchemaType,
};

fn plain(key: Key) -> Hotkey {
    Hotkey { key, ctrl: false, alt: false, shift: false, meta: false }
}

#[test]
fn default_commands_in_order() {
    let m = default_commands();
    let names: Vec<&str> = m.keys().map(|k| k.name()).collect();
    assert_eq!(names, vec!["activate", "complete", "alt-activate"]);
    let activate = &m[0];
    assert_eq!(activate.title, "Activate");
    assert_eq!(activate.description, None);
    assert_eq!(activate.default_hotkey, Some(plain(Key::Enter)));
    assert_eq!(m[1].title, "Complete");
    assert_eq!(m[1].default_hotkey, Some(plain(Key::Tab)));
    assert_eq!(m[2].title, "Alt activate");
    assert_eq!(
        m[2].default_hotkey,
        Some(Hotkey { key: Key::Enter, ctrl: false, alt: true, shift: false, meta: false })
    );
}

#[test]
fn bare_type_names() {
    assert_eq!(expected_variants(), vec!["int", "text", "bool", "file-path", "folder-path"]);
    match schema_type_from_str("int") {
        Some(SchemaType::Int(SchemaInt { min, max, default })) => {
            assert_eq!((min, max, default), (i32::MIN, i32::MAX, None));
        }
        _ => panic!("expected int"),
    }
    match schema_type_from_str("text") {
        Some(SchemaType::Text(SchemaText { min_length, max_length, default })) => {
            assert_eq!((min_length, max_length, default), (0, u32::MAX, None));
        }
        _ => panic!("expected text"),
    }
    assert!(matches!(schema_type_from_str("bool"), Some(SchemaType::Bool(SchemaBool { default: None }))));
    assert!(matches!(
        schema_type_from_str("file-path"),
        Some(SchemaType::FilePath(SchemaFilePath { extension: None, default: None }))
    ));
    assert!(matches!(
        schema_type_from_str("folder-path"),
        Some(SchemaType::FolderPath(SchemaFolderPath { default: None }))
    ));
    assert!(schema_type_from_str("Int").is_none());
    assert!(schema_type_from_str("list").is_none());
    assert!(schema_type_from_str("").is_none());
}
