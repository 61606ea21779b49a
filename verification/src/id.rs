//! String identifiers of plugins and commands.

use vstd::prelude::*;

verus! {

/// A unique ID represented by a string.
pub trait StringId: Clone + Eq + core::hash::Hash + Ord {
    /// The characters of this ID.
    spec fn text(&self) -> Seq<char>;

    /// The ID as a string slice.
    fn as_str(&self) -> (r: &str)
        ensures
            r@ == self.text(),
    ;
}

/// The ID of a command that a plugin declares.
#[derive(Debug, PartialEq, Eq, PartialOrd, Ord, Hash)]
pub struct CommandId(String);

impl View for CommandId {
    type V = Seq<char>;

    closed spec fn view(&self) -> Seq<char> {
        self.0@
    }
}

impl CommandId {
    pub fn new(name: &str) -> (r: Self)
        ensures
            r@ == name@,
    {
        CommandId(name.to_owned())
    }

    /// The name of the command.
    pub fn name(&self) -> (r: &str)
        ensures
            r@ == self@,
    {
        self.0.as_str()
    }
}

impl Clone for CommandId {
    fn clone(&self) -> (r: Self)
        ensures
            r@ == self@,
    {
        CommandId(self.0.clone())
    }
}

impl StringId for CommandId {
    open spec fn text(&self) -> Seq<char> {
        self@
    }

    fn as_str(&self) -> (r: &str) {
        self.0.as_str()
    }
}

/// The ID of a plugin.
#[derive(Debug, PartialEq, Eq, PartialOrd, Ord, Hash)]
pub struct PluginId(String);

impl View for PluginId {
    type V = Seq<char>;

    closed spec fn view(&self) -> Seq<char> {
        self.0@
    }
}

impl PluginId {
    pub fn new(s: &str) -> (r: Self)
        ensures
            r@ == s@,
    {
        PluginId(s.to_owned())
    }
}

impl Clone for PluginId {
    fn clone(&self) -> (r: Self)
        ensures
            r@ == self@,
    {
        PluginId(self.0.clone())
    }
}

impl StringId for PluginId {
    open spec fn text(&self) -> Seq<char> {
        self@
    }

    fn as_str(&self) -> (r: &str) {
        self.0.as_str()
    }
}

/// A string ID that keys the entries of the user's configuration.
#[derive(Debug, PartialEq, Eq, PartialOrd, Ord, Hash)]
pub struct Id(String);

impl View for Id {
    type V = Seq<char>;

    closed spec fn view(&self) -> Seq<char> {
        self.0@
    }
}

impl Id {
    pub fn new(s: &str) -> (r: Self)
        ensures
            r@ == s@,
    {
        Id(s.to_owned())
    }

    pub fn as_str(&self) -> (r: &str)
        ensures
            r@ == self@,
    {
        self.0.as_str()
    }
}

impl Clone for Id {
    fn clone(&self) -> (r: Self)
        ensures
            r@ == self@,
    {
        Id(self.0.clone())
    }
}

impl StringId for Id {
    open spec fn text(&self) -> Seq<char> {
        self@
    }

    fn as_str(&self) -> (r: &str) {
        self.0.as_str()
    }
}

} // verus!
