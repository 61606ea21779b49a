use covey::macro_args::{assemble_args, Entry, EntryKey, MacroArgsError, ManifestSource};

fn e(key: EntryKey, value: &str) -> Entry {
    Entry { key, value: value.to_string() }
}

fn required() -> Vec<Entry> {
    vec![
        e(EntryKey::ExtImplTy, "crate::ListItem"),
        e(EntryKey::CommandReturnTy, "crate::Result<R>"),
        e(EntryKey::CommandReturnTrait, "::core::convert::Into<crate::Actions>"),
    ]
}

#[test]
fn serde_path_defaults() {
    let mut entries = required();
    entries.push(e(EntryKey::Inline, "name = \"Open\""));
    let args = assemble_args(&entries).unwrap();
    assert_eq!(args.serde_path, "::serde");
    assert_eq!(args.ext_impl_ty, "crate::ListItem");
    assert_eq!(args.command_return_ty, "crate::Result<R>");
    assert_eq!(args.command_return_trait, "::core::convert::Into<crate::Actions>");
    assert_eq!(args.format, ManifestSource::Inline("name = \"Open\"".to_string()));
}

#[test]
fn every_entry_is_read() {
    let mut entries = vec![e(EntryKey::File, "./manifest.toml"), e(EntryKey::SerdePath, "my::serde")];
    entries.extend(required());
    let args = assemble_args(&entries).unwrap();
    assert_eq!(args.serde_path, "my::serde");
    assert_eq!(args.format, ManifestSource::File("./manifest.toml".to_string()));
}

#[test]
fn repeated_keys_are_refused() {
    let mut entries = required();
    entries.push(e(EntryKey::ExtImplTy, "other"));
    entries.push(e(EntryKey::Inline, "x"));
    let err = assemble_args(&entries).unwrap_err();
    assert_eq!(err, MacroArgsError::Repeated(EntryKey::ExtImplTy));
    assert_eq!(err.to_string(), "`ext_impl_ty` must be defined once");
}

#[test]
fn only_one_source() {
    let mut entries = required();
    entries.push(e(EntryKey::Inline, "x"));
    entries.push(e(EntryKey::File, "y"));
    let err = assemble_args(&entries).unwrap_err();
    assert_eq!(err, MacroArgsError::SecondSource);
    assert_eq!(err.to_string(), "exactly one of `inline` or `file` must be defined");
    let err = assemble_args(&required()).unwrap_err();
    assert_eq!(err, MacroArgsError::NoSource);
    assert_eq!(err.to_string(), "exactly one of `inline` or `file` must be defined");
}

#[test]
fn missing_keys_in_order() {
    let err = assemble_args(&vec![e(EntryKey::Inline, "x")]).unwrap_err();
    assert_eq!(err, MacroArgsError::Missing(EntryKey::ExtImplTy));
    assert_eq!(err.to_string(), "`ext_impl_ty` must be defined");
    let err = assemble_args(&vec![e(EntryKey::ExtImplTy, "t"), e(EntryKey::CommandReturnTrait, "t")]).unwrap_err();
    assert_eq!(err, MacroArgsError::Missing(EntryKey::CommandReturnTy));
    let err = assemble_args(&vec![e(EntryKey::ExtImplTy, "t"), e(EntryKey::CommandReturnTy, "t")]).unwrap_err();
    assert_eq!(err.to_string(), "`command_return_trait` must be defined");
}

#[test]
fn first_error_wins() {
    let entries = vec![e(EntryKey::SerdePath, "a"), e(EntryKey::SerdePath, "b"), e(EntryKey::File, "f"), e(EntryKey::Inline, "i")];
    assert_eq!(assemble_args(&entries).unwrap_err(), MacroArgsError::Repeated(EntryKey::SerdePath));
}
