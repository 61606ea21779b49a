//! Types of the user's configuration of the app and its plugins.

use std::collections::HashMap;

use vstd::prelude::*;

use crate::commands::{Hotkey, Key};
use crate::id::Id;
use crate::keyed_list::{Identify, KeyedList};

verus! {

#[verifier::external_type_specification]
#[verifier::external_body]
#[verifier::reject_recursive_types(K)]
#[verifier::reject_recursive_types(V)]
pub struct ExJsonMap<K, V>(serde_json::Map<K, V>);

#[verifier::external_type_specification]
#[verifier::external_body]
pub struct ExJsonValue(serde_json::Value);

/// The keys of a JSON object.
pub uninterp spec fn json_map_keys(m: serde_json::Map<String, serde_json::Value>) -> Set<Seq<char>>;

/// Calls `serde_json::Map::new`, which makes an empty JSON object.
#[verifier::external_body]
pub(crate) fn empty_json_map() -> (m: serde_json::Map<String, serde_json::Value>)
    ensures
        json_map_keys(m) == Set::<Seq<char>>::empty(),
{
    serde_json::Map::new()
}

/// The whole configuration.
#[derive(Debug)]
pub struct GlobalConfig {
    pub app: AppConfig,
    pub plugins: KeyedList<PluginConfig>,
}

/// Settings of the app itself.
///
/// Every setting has a default, so that a partially filled config still works.
#[derive(Debug)]
pub struct AppConfig {
    /// Hotkey to re-initialise the current plugin.
    ///
    /// Default is Ctrl+R.
    pub reload_hotkey: Hotkey,
    /// List of icon themes to use when rendering a named icon from a plugin.
    ///
    /// Icons will try to be loaded from top to bottom.
    pub icon_themes: Vec<IconTheme>,
}

/// A theme to try render a named icon with.
#[derive(Debug, Clone)]
pub struct IconTheme {
    pub kind: IconThemeKind,
    /// Name of the icon theme within the kind.
    pub name: String,
}

#[derive(Debug, Clone, Copy, PartialEq, Eq, Structural)]
pub enum IconThemeKind {
    /// Icon theme from the operating system.
    ///
    /// On linux, "hicolor" is usually the default system theme.
    System,
    /// Icon theme from [iconify-icon](https://icon-sets.iconify.design/).
    ///
    /// The associated name should be the prefix of the icon set, before the colon.
    IconifyIcon,
}

impl Default for AppConfig {
    fn default() -> (c: Self)
        ensures
            c.reload_hotkey == ctrl_r(),
            c.icon_themes@.len() == 1,
            c.icon_themes@[0].kind == IconThemeKind::System,
            c.icon_themes@[0].name@ == "hicolor"@,
    {
        Self { reload_hotkey: default_reload_hotkey(), icon_themes: default_icon_themes() }
    }
}

/// Ctrl+R.
pub open spec fn ctrl_r() -> Hotkey {
    Hotkey { key: Key::R, ctrl: true, alt: false, shift: false, meta: false }
}

/// The default hotkey to re-initialise the current plugin: Ctrl+R.
pub fn default_reload_hotkey() -> (h: Hotkey)
    ensures
        h == ctrl_r(),
{
    Hotkey { key: Key::R, ctrl: true, alt: false, shift: false, meta: false }
}

/// The default icon themes: the system theme "hicolor".
pub fn default_icon_themes() -> (v: Vec<IconTheme>)
    ensures
        v@.len() == 1,
        v@[0].kind == IconThemeKind::System,
        v@[0].name@ == "hicolor"@,
{
    let mut v = Vec::new();
    v.push(IconTheme { kind: IconThemeKind::System, name: "hicolor".to_owned() });
    v
}

/// The user's configuration of one plugin.
#[derive(Debug)]
pub struct PluginConfig {
    pub id: Id,
    /// Text that starts a query for this plugin.
    pub prefix: String,
    /// The plugin's own settings, as a JSON object.
    pub config: serde_json::Map<String, serde_json::Value>,
    /// Hotkeys chosen by the user for the plugin's commands.
    pub commands: HashMap<Id, Hotkey>,
}

impl Identify for PluginConfig {
    type Id = Id;

    open spec fn spec_id(&self) -> Id {
        self.id
    }

    fn id(&self) -> (r: &Id) {
        &self.id
    }
}

} // verus!
