//! The manifest of a plugin: its description, the commands it offers, and
//! the schema of its settings.

use std::collections::HashMap;

use indexmap::IndexMap;
use vstd::prelude::*;

use crate::commands::{Hotkey, Key};
use crate::id::CommandId;
use crate::naming::{command_method_name, hyphens_to_underscores};

verus! {

#[verifier::external_type_specification]
#[verifier::external_body]
#[verifier::reject_recursive_types(K)]
#[verifier::reject_recursive_types(V)]
#[verifier::reject_recursive_types(S)]
pub struct ExIndexMap<K, V, S>(IndexMap<K, V, S>);

/// A command as a manifest declares it.
#[derive(Debug, Clone, PartialEq, Eq, PartialOrd, Ord)]
pub struct Command {
    pub title: String,
    pub description: Option<String>,
    pub default_hotkey: Option<Hotkey>,
}

/// [`Command`] with its strings taken as characters.
pub struct CommandView {
    pub title: Seq<char>,
    pub description: Option<Seq<char>>,
    pub default_hotkey: Option<Hotkey>,
}

impl View for Command {
    type V = CommandView;

    open spec fn view(&self) -> CommandView {
        CommandView {
            title: self.title@,
            description: match self.description {
                Some(d) => Some(d@),
                None => None,
            },
            default_hotkey: self.default_hotkey,
        }
    }
}

/// The commands of a manifest in order, each with its name.
pub uninterp spec fn command_entries(m: IndexMap<CommandId, Command>) -> Seq<(Seq<char>, CommandView)>;

/// Calls `IndexMap::new`, which makes an empty map.
#[verifier::external_body]
fn new_command_map() -> (m: IndexMap<CommandId, Command>)
    ensures
        command_entries(m) == Seq::<(Seq<char>, CommandView)>::empty(),
{
    IndexMap::new()
}

/// Calls `IndexMap::insert`. As its documentation says: when no entry has
/// an equal key, the pair is added last and `None` is returned; otherwise
/// the entry keeps its key and place, takes the new value, and the old value
/// is returned.
#[verifier::external_body]
fn insert_command(m: &mut IndexMap<CommandId, Command>, id: CommandId, command: Command) -> (r: Option<Command>)
    ensures
        ({
            let before = command_entries(*old(m));
            let after = command_entries(*final(m));
            match r {
                None => {
                    &&& forall|i: int| 0 <= i < before.len() ==> (#[trigger] before[i]).0 != id@
                    &&& after == before.push((id@, command@))
                },
                Some(prev) => exists|i: int|
                    0 <= i < before.len() && (#[trigger] before[i]).0 == id@ && prev@ == before[i].1
                        && after == before.update(i, (id@, command@)),
            }
        }),
{
    m.insert(id, command)
}

/// Calls `IndexMap::keys`, which yields the keys in the map's order, and
/// collects clones of them.
#[verifier::external_body]
fn command_ids(m: &IndexMap<CommandId, Command>) -> (r: Vec<CommandId>)
    ensures
        r@.len() == command_entries(*m).len(),
        forall|i: int| 0 <= i < r@.len() ==> (#[trigger] r@[i])@ == command_entries(*m)[i].0,
{
    m.keys().cloned().collect()
}

/// The methods of the extension trait generated for the commands of a
/// manifest, in the commands' order: for each command, the method's name
/// (`on_` and the command ID with `-` replaced by `_`) and the command ID
/// that the method gives its callback.
pub fn command_ext_methods(commands: &IndexMap<CommandId, Command>) -> (r: Vec<(String, String)>)
    ensures
        r@.len() == command_entries(*commands).len(),
        forall|i: int|
            0 <= i < r@.len() ==> (#[trigger] r@[i]).0@ == "on_"@ + hyphens_to_underscores(
                command_entries(*commands)[i].0,
            ) && r@[i].1@ == command_entries(*commands)[i].0,
{
    let ids = command_ids(commands);
    let mut r: Vec<(String, String)> = Vec::new();
    let mut i: usize = 0;
    while i < ids.len()
        invariant
            i <= ids@.len(),
            ids@.len() == command_entries(*commands).len(),
            forall|j: int| 0 <= j < ids@.len() ==> (#[trigger] ids@[j])@ == command_entries(*commands)[j].0,
            r@.len() == i,
            forall|j: int|
                0 <= j < i ==> (#[trigger] r@[j]).0@ == "on_"@ + hyphens_to_underscores(
                    command_entries(*commands)[j].0,
                ) && r@[j].1@ == command_entries(*commands)[j].0,
        decreases ids@.len() - i,
    {
        let name = ids[i].name();
        let method = command_method_name(name);
        r.push((method, name.to_owned()));
        i = i + 1;
    }
    r
}

/// The commands every manifest has unless it declares its own: "activate"
/// (Enter), "complete" (Tab) and "alt-activate" (Alt+Enter).
pub open spec fn default_command_entries() -> Seq<(Seq<char>, CommandView)> {
    seq![
        (
            "activate"@,
            CommandView {
                title: "Activate"@,
                description: None,
                default_hotkey: Some(
                    Hotkey { key: Key::Enter, ctrl: false, alt: false, shift: false, meta: false },
                ),
            },
        ),
        (
            "complete"@,
            CommandView {
                title: "Complete"@,
                description: None,
                default_hotkey: Some(
                    Hotkey { key: Key::Tab, ctrl: false, alt: false, shift: false, meta: false },
                ),
            },
        ),
        (
            "alt-activate"@,
            CommandView {
                title: "Alt activate"@,
                description: None,
                default_hotkey: Some(
                    Hotkey { key: Key::Enter, ctrl: false, alt: true, shift: false, meta: false },
                ),
            },
        ),
    ]
}

/// The commands of a manifest that declares none.
pub fn default_commands() -> (m: IndexMap<CommandId, Command>)
    ensures
        command_entries(m) == default_command_entries(),
{
    proof {
        reveal_strlit("activate");
        reveal_strlit("complete");
        reveal_strlit("alt-activate");
    }
    let mut m = new_command_map();
    let enter = Hotkey { key: Key::Enter, ctrl: false, alt: false, shift: false, meta: false };
    let tab = Hotkey { key: Key::Tab, ctrl: false, alt: false, shift: false, meta: false };
    let alt_enter = Hotkey { key: Key::Enter, ctrl: false, alt: true, shift: false, meta: false };
    let _ = insert_command(
        &mut m,
        CommandId::new("activate"),
        Command { title: "Activate".to_owned(), description: None, default_hotkey: Some(enter) },
    );
    assert(command_entries(m).len() == 1);
    assert(command_entries(m)[0].0 == "activate"@);
    assert("activate"@[0] != "complete"@[0]);
    let _ = insert_command(
        &mut m,
        CommandId::new("complete"),
        Command { title: "Complete".to_owned(), description: None, default_hotkey: Some(tab) },
    );
    assert(command_entries(m).len() == 2);
    assert("activate"@.len() != "alt-activate"@.len());
    assert("complete"@.len() != "alt-activate"@.len());
    let _ = insert_command(
        &mut m,
        CommandId::new("alt-activate"),
        Command {
            title: "Alt activate".to_owned(),
            description: None,
            default_hotkey: Some(alt_enter),
        },
    );
    assert(command_entries(m) =~= default_command_entries());
    m
}

/// A manifest for a single plugin.
#[derive(Debug)]
pub struct PluginManifest {
    /// User-facing name of the plugin.
    pub name: String,
    /// Plugin description. Can be multiple lines. Supports markdown.
    pub description: Option<String>,
    /// URL to the plugin's repository.
    pub repository: Option<String>,
    /// List of authors of the plugin.
    pub authors: Vec<String>,
    /// Key is the ID of the configuration option.
    pub schema: IndexMap<String, PluginConfigSchema>,
    /// All commands that the user can run on some list item.
    ///
    /// Several commands can have the same hotkey, but the commands that
    /// a single list item has should have different hotkeys.
    pub commands: IndexMap<CommandId, Command>,
}

/// One setting of a plugin.
#[derive(Debug)]
pub struct PluginConfigSchema {
    pub title: String,
    pub description: Option<String>,
    pub ty: SchemaType,
}

/// The type of a setting. If there is no default, the setting is required.
#[derive(Debug)]
pub enum SchemaType {
    Int(SchemaInt),
    Text(SchemaText),
    Bool(SchemaBool),
    FilePath(SchemaFilePath),
    FolderPath(SchemaFolderPath),
    List(SchemaList),
    StringMap(SchemaMap),
    Struct(SchemaStruct),
}

#[derive(Debug)]
pub struct SchemaList {
    pub item_type: Box<SchemaType>,
    pub min_items: u32,
    /// Whether all items in the list must be unique.
    pub unique: bool,
}

/// A map from any string to a specified value.
#[derive(Debug)]
pub struct SchemaMap {
    pub value_type: Box<SchemaType>,
    pub min_items: u32,
}

/// A map with specific key-value pairs.
#[derive(Debug)]
pub struct SchemaStruct {
    pub fields: HashMap<String, SchemaType>,
}

/// A selection of one of multiple strings.
#[derive(Debug, Clone, PartialEq)]
pub struct SchemaSelection {
    pub allowed_values: Vec<String>,
    pub default: Option<String>,
}

#[derive(Debug, Clone, PartialEq)]
pub struct SchemaInt {
    pub min: i32,
    pub max: i32,
    pub default: Option<i32>,
}

impl Default for SchemaInt {
    fn default() -> (s: Self)
        ensures
            s.min == i32::MIN,
            s.max == i32::MAX,
            s.default is None,
    {
        SchemaInt { min: i32::MIN, max: i32::MAX, default: None }
    }
}

#[derive(Debug, Clone, PartialEq)]
pub struct SchemaText {
    pub min_length: u32,
    pub max_length: u32,
    pub default: Option<String>,
}

impl Default for SchemaText {
    fn default() -> (s: Self)
        ensures
            s.min_length == u32::MIN,
            s.max_length == u32::MAX,
            s.default is None,
    {
        SchemaText { min_length: u32::MIN, max_length: u32::MAX, default: None }
    }
}

#[derive(Debug, Clone, PartialEq)]
pub struct SchemaBool {
    pub default: Option<bool>,
}

impl Default for SchemaBool {
    fn default() -> (s: Self)
        ensures
            s.default is None,
    {
        SchemaBool { default: None }
    }
}

#[derive(Debug, Clone, PartialEq)]
pub struct SchemaFilePath {
    pub extension: Option<Vec<String>>,
    pub default: Option<String>,
}

impl Default for SchemaFilePath {
    fn default() -> (s: Self)
        ensures
            s.extension is None,
            s.default is None,
    {
        SchemaFilePath { extension: None, default: None }
    }
}

#[derive(Debug, Clone, PartialEq)]
pub struct SchemaFolderPath {
    pub default: Option<String>,
}

impl Default for SchemaFolderPath {
    fn default() -> (s: Self)
        ensures
            s.default is None,
    {
        SchemaFolderPath { default: None }
    }
}

/// The type that a bare string names, with all its options at their
/// defaults: "int", "text", "bool", "file-path" or "folder-path".
pub open spec fn schema_type_named(s: Seq<char>) -> Option<int> {
    if s == "int"@ {
        Some(0)
    } else if s == "text"@ {
        Some(1)
    } else if s == "bool"@ {
        Some(2)
    } else if s == "file-path"@ {
        Some(3)
    } else if s == "folder-path"@ {
        Some(4)
    } else {
        None
    }
}

/// Whether `t` is the type of the given kind (as numbered by
/// [`schema_type_named`]) with every option at its default.
pub open spec fn is_default_schema_type(t: SchemaType, kind: int) -> bool {
    match t {
        SchemaType::Int(i) => kind == 0 && i.min == i32::MIN && i.max == i32::MAX && i.default is None,
        SchemaType::Text(x) => kind == 1 && x.min_length == u32::MIN && x.max_length == u32::MAX
            && x.default is None,
        SchemaType::Bool(b) => kind == 2 && b.default is None,
        SchemaType::FilePath(f) => kind == 3 && f.extension is None && f.default is None,
        SchemaType::FolderPath(f) => kind == 4 && f.default is None,
        _ => false,
    }
}

/// The names a bare string may give a setting's type.
pub fn expected_variants() -> (r: Vec<&'static str>)
    ensures
        r@.len() == 5,
        r@[0]@ == "int"@,
        r@[1]@ == "text"@,
        r@[2]@ == "bool"@,
        r@[3]@ == "file-path"@,
        r@[4]@ == "folder-path"@,
{
    let mut v = Vec::new();
    v.push("int");
    v.push("text");
    v.push("bool");
    v.push("file-path");
    v.push("folder-path");
    v
}

/// The setting type that a bare string names, with its options at their
/// defaults; `None` for any other string.
pub fn schema_type_from_str(s: &str) -> (r: Option<SchemaType>)
    ensures
        match r {
            Some(t) => schema_type_named(s@) matches Some(k) && is_default_schema_type(t, k),
            None => schema_type_named(s@) is None,
        },
{
    if crate::text::str_eq(s, "int") {
        Some(SchemaType::Int(SchemaInt::default()))
    } else if crate::text::str_eq(s, "text") {
        Some(SchemaType::Text(SchemaText::default()))
    } else if crate::text::str_eq(s, "bool") {
        Some(SchemaType::Bool(SchemaBool::default()))
    } else if crate::text::str_eq(s, "file-path") {
        Some(SchemaType::FilePath(SchemaFilePath::default()))
    } else if crate::text::str_eq(s, "folder-path") {
        Some(SchemaType::FolderPath(SchemaFolderPath::default()))
    } else {
        None
    }
}

} // verus!
