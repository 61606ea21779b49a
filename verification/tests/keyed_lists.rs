use covey::commands::{Hotkey, Key};
use covey::config::{default_icon_themes, default_reload_hotkey, AppConfig, IconThemeKind};
use covey::id::{CommandId, Id, PluginId, StringId};
use covey::keyed_list::KeyedList;
use covey::settings::{self, AppSettings, PluginEntry};

fn entry(name: &str) -> PluginEntry {
    PluginEntry::new(Id::new(name))
}

fn ids(list: &KeyedList<PluginEntry>) -> Vec<String> {
    list.iter().map(|e| e.id.as_str().to_string()).collect()
}

#[test]
fn new_accepts_unique_ids_in_order() {
    let list = KeyedList::new(vec![entry("a"), entry("b"), entry("c")]).unwrap();
    assert_eq!(ids(&list), vec!["a", "b", "c"]);
    assert_eq!(list.len(), 3);
}

#[test]
fn new_rejects_the_first_duplicate() {
    let err = KeyedList::new(vec![entry("a"), entry("b"), entry("a"), entry("b")]).unwrap_err();
    assert_eq!(err.to_string(), "id \"a\" is duplicated");
}

#[test]
fn duplicate_message_escapes_the_id() {
    let err = KeyedList::new(vec![entry("x\"y"), entry("x\"y")]).unwrap_err();
    assert_eq!(err.to_string(), "id \"x\\\"y\" is duplicated");
}

#[test]
fn new_lossy_keeps_first_of_each_id() {
    let mut first = entry("a");
    first.disabled = true;
    let list = KeyedList::new_lossy(vec![first, entry("b"), entry("a"), entry("c"), entry("b")]);
    assert_eq!(ids(&list), vec!["a", "b", "c"]);
    assert!(list.get(&Id::new("a")).unwrap().disabled);
}

#[test]
fn get_and_contains() {
    let list = KeyedList::new(vec![entry("one"), entry("two")]).unwrap();
    assert_eq!(list.get(&Id::new("two")).unwrap().id.as_str(), "two");
    assert!(list.get(&Id::new("three")).is_none());
    assert!(list.contains(&Id::new("one")));
    assert!(!list.contains(&Id::new("One")));
}

#[test]
fn extend_lossy_skips_known_ids() {
    let mut list = KeyedList::new(vec![entry("a"), entry("b")]).unwrap();
    list.extend_lossy(vec![entry("b"), entry("c"), entry("a"), entry("d"), entry("c")]);
    assert_eq!(ids(&list), vec!["a", "b", "c", "d"]);
}

#[test]
fn default_list_is_empty() {
    let list: KeyedList<PluginEntry> = KeyedList::default();
    assert_eq!(list.len(), 0);
    assert!(list.as_slice().is_empty());
    assert!(list.into_vec().is_empty());
}

#[test]
fn ids_keep_their_text() {
    assert_eq!(Id::new("open").as_str(), "open");
    assert_eq!(CommandId::new("activate").name(), "activate");
    assert_eq!(PluginId::new("files").as_str(), "files");
    let id = Id::new("x");
    assert_eq!(id.clone(), id);
}

#[test]
fn plugin_entry_defaults() {
    let e = entry("p");
    assert!(!e.disabled);
    assert!(e.prefix.is_none());
    assert!(e.settings.is_empty());
    assert!(e.commands.is_empty());
}

#[test]
fn app_defaults() {
    let ctrl_r = Hotkey { key: Key::R, ctrl: true, alt: false, shift: false, meta: false };
    assert_eq!(default_reload_hotkey(), ctrl_r);
    let app = AppConfig::default();
    assert_eq!(app.reload_hotkey, ctrl_r);
    assert_eq!(app.icon_themes.len(), 1);
    assert_eq!(app.icon_themes[0].kind, IconThemeKind::System);
    assert_eq!(app.icon_themes[0].name, "hicolor");
    let themes = default_icon_themes();
    assert_eq!(themes[0].name, "hicolor");
    let s = AppSettings::default();
    assert_eq!(s.reload_hotkey, ctrl_r);
    assert_eq!(s.icon_themes, vec!["hicolor".to_string()]);
    assert_eq!(settings::default_icon_themes(), vec!["hicolor".to_string()]);
}
