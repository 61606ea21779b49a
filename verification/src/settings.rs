//! Types of the user's settings as the desktop app stores them: the app's
//! settings and one entry per plugin.

use std::collections::HashMap;

use vstd::prelude::*;

use crate::commands::Hotkey;
use crate::config::{ctrl_r, default_reload_hotkey, empty_json_map, json_map_keys};
use crate::id::Id;
use crate::keyed_list::{Identify, KeyedList};

verus! {

/// All the user's settings.
#[derive(Debug)]
pub struct GlobalSettings {
    pub app: AppSettings,
    pub plugins: KeyedList<PluginEntry>,
}

/// Settings of the app itself; every one has a default.
#[derive(Debug)]
pub struct AppSettings {
    /// Hotkey to re-initialise the current plugin.
    ///
    /// Default is Ctrl+R.
    pub reload_hotkey: Hotkey,
    /// List of system icon themes to use when rendering a named icon from a plugin.
    ///
    /// Icons will try to be loaded from top to bottom.
    pub icon_themes: Vec<String>,
}

impl Default for AppSettings {
    fn default() -> (s: Self)
        ensures
            s.reload_hotkey == ctrl_r(),
            s.icon_themes@.len() == 1,
            s.icon_themes@[0]@ == "hicolor"@,
    {
        Self { reload_hotkey: default_reload_hotkey(), icon_themes: default_icon_themes() }
    }
}

/// The default system icon themes: "hicolor".
pub fn default_icon_themes() -> (v: Vec<String>)
    ensures
        v@.len() == 1,
        v@[0]@ == "hicolor"@,
{
    let mut v = Vec::new();
    v.push("hicolor".to_owned());
    v
}

/// The user's settings of one plugin.
#[derive(Debug)]
pub struct PluginEntry {
    pub id: Id,
    /// Disables this plugin.
    ///
    /// This is `false` by default. The plugin will also be disabled if no
    /// prefix is defined (no user prefix or default prefix).
    pub disabled: bool,
    /// Prefix to select this plugin.
    pub prefix: Option<String>,
    /// The plugin's own settings, as a JSON object.
    pub settings: serde_json::Map<String, serde_json::Value>,
    pub commands: HashMap<Id, CommandSettings>,
}

impl Identify for PluginEntry {
    type Id = Id;

    open spec fn spec_id(&self) -> Id {
        self.id
    }

    fn id(&self) -> (r: &Id) {
        &self.id
    }
}

impl PluginEntry {
    /// An entry for the plugin with every setting at its default: enabled,
    /// with no prefix, no settings and no command settings.
    pub fn new(plugin_id: Id) -> (e: Self)
        ensures
            e.id == plugin_id,
            !e.disabled,
            e.prefix is None,
            json_map_keys(e.settings) == Set::<Seq<char>>::empty(),
            e.commands@ == Map::<Id, CommandSettings>::empty(),
    {
        Self {
            id: plugin_id,
            disabled: false,
            prefix: None,
            settings: empty_json_map(),
            commands: HashMap::new(),
        }
    }
}

/// The user's settings of one command.
#[derive(Debug)]
pub struct CommandSettings {
    /// The hotkeys chosen by the user; `None` keeps the plugin's defaults,
    /// while an empty list means no hotkey.
    pub hotkeys: Option<Vec<Hotkey>>,
}

} // verus!
