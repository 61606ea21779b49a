//! The plugin side: the results a plugin lists, the actions it asks covey to
//! perform, and their conversion into the wire messages.

use core::ops::Range;

use vstd::prelude::*;

use crate::id::CommandId;
use crate::proto;
use crate::store::TargetCallbacks;

verus! {

/// An action for covey to perform.
///
/// Actions don't close covey by themselves: add [`Action::close`] to close
/// the application.
#[derive(Debug, Clone)]
pub struct Action(pub proto::PluginAction);

/// Helper constructors for action variants.
impl Action {
    pub fn close() -> (a: Self)
        ensures
            a.0 == proto::PluginAction::Close,
    {
        Self(proto::PluginAction::Close)
    }

    pub fn copy(str: String) -> (a: Self)
        ensures
            a.0 == proto::PluginAction::Copy(str),
    {
        Self(proto::PluginAction::Copy(str))
    }

    pub fn set_input(input: Input) -> (a: Self)
        ensures
            a.0 == proto::PluginAction::SetInput(input_spec(input)),
    {
        Self(proto::PluginAction::SetInput(self::input(input)))
    }

    /// An error to show to the user; `err` is the error's displayed text.
    pub fn display_error(err: String) -> (a: Self)
        ensures
            a.0 == proto::PluginAction::DisplayError(err),
    {
        Self(proto::PluginAction::DisplayError(err))
    }
}

/// The text of the input field and the part of it that is selected.
#[derive(Debug, Clone)]
pub struct Input {
    pub query: String,
    pub selection: SelectionRange,
}

impl Input {
    /// Sets the input to the provided query and with the cursor placed
    /// at the end.
    pub fn new(query: String) -> (i: Self)
        ensures
            i.query == query,
            i.selection == SelectionRange::end_spec(),
    {
        Self { query, selection: SelectionRange::end() }
    }

    pub fn select(self, sel: SelectionRange) -> (i: Self)
        ensures
            i.query == self.query,
            i.selection == sel,
    {
        Input { query: self.query, selection: sel }
    }
}

/// A range of characters of the input, from `lower_bound` up to but not
/// including `upper_bound`.
#[derive(Debug, Clone, Copy, PartialEq, Eq, Structural)]
pub struct SelectionRange {
    pub lower_bound: usize,
    pub upper_bound: usize,
}

impl SelectionRange {
    pub open spec fn end_spec() -> SelectionRange {
        SelectionRange { lower_bound: usize::MAX, upper_bound: usize::MAX }
    }

    /// Sets both the start and end bound to the provided index.
    pub fn at(index: usize) -> (r: Self)
        ensures
            r.lower_bound == index,
            r.upper_bound == index,
    {
        Self { lower_bound: index, upper_bound: index }
    }

    /// Selects the entire query.
    pub fn all() -> (r: Self)
        ensures
            r.lower_bound == 0,
            r.upper_bound == usize::MAX,
    {
        Self { lower_bound: 0, upper_bound: usize::MAX }
    }

    /// Sets the start and end to `0`.
    pub fn start() -> (r: Self)
        ensures
            r.lower_bound == 0,
            r.upper_bound == 0,
    {
        Self::at(0)
    }

    /// Places the cursor after the end of the query.
    pub fn end() -> (r: Self)
        ensures
            r == Self::end_spec(),
    {
        Self::at(usize::MAX)
    }

    pub fn to_range(&self) -> (r: Range<usize>)
        ensures
            r.start == self.lower_bound,
            r.end == self.upper_bound,
    {
        Range { start: self.lower_bound, end: self.upper_bound }
    }
}

/// An ID to identify a list item when keeping track of how many times it
/// has been previously visited/activated.
///
/// If not explicitly set, the visit id will be the list item title.
#[derive(Debug, Clone, PartialEq, Eq, PartialOrd, Ord, Hash)]
pub struct VisitId(pub String);

/// The results of a query.
pub struct List<C> {
    pub items: Vec<ListItem<C>>,
    /// The kind of list to show.
    ///
    /// If this is [`None`], the list style will be the default set by
    /// the user.
    pub style: Option<ListStyle>,
    pub callbacks: TargetCallbacks<C>,
}

impl<C> List<C> {
    pub fn new(items: Vec<ListItem<C>>) -> (l: Self)
        ensures
            l.items == items,
            l.style is None,
            l.callbacks@ == Map::<Seq<char>, C>::empty(),
    {
        Self { items, style: None, callbacks: TargetCallbacks::new() }
    }

    pub fn as_grid_with_columns(self, columns: u32) -> (l: Self)
        ensures
            l.items == self.items,
            l.callbacks == self.callbacks,
            l.style == Some(ListStyle::GridWithColumns(columns)),
    {
        List { items: self.items, style: Some(ListStyle::GridWithColumns(columns)), callbacks: self.callbacks }
    }

    pub fn as_grid(self) -> (l: Self)
        ensures
            l.items == self.items,
            l.callbacks == self.callbacks,
            l.style == Some(ListStyle::Grid),
    {
        List { items: self.items, style: Some(ListStyle::Grid), callbacks: self.callbacks }
    }

    pub fn as_rows(self) -> (l: Self)
        ensures
            l.items == self.items,
            l.callbacks == self.callbacks,
            l.style == Some(ListStyle::Rows),
    {
        List { items: self.items, style: Some(ListStyle::Rows), callbacks: self.callbacks }
    }

    /// Adds a command that can be called on the list as a whole.
    pub fn add_command(self, name: &str, callback: C) -> (l: Self)
        ensures
            l.items == self.items,
            l.style == self.style,
            l.callbacks@ == self.callbacks@.insert(name@, callback),
    {
        let mut callbacks = self.callbacks;
        callbacks.add_callback(CommandId::new(name), callback);
        List { items: self.items, style: self.style, callbacks }
    }
}

/// The kind of list to show.
#[derive(Debug, Clone, Copy, PartialEq, Eq, Structural)]
pub enum ListStyle {
    Rows,
    Grid,
    GridWithColumns(u32),
}

/// One result of a query.
pub struct ListItem<C> {
    pub title: String,
    pub description: String,
    pub icon: Option<Icon>,
    pub visit_id: VisitId,
    pub callbacks: TargetCallbacks<C>,
}

impl<C> ListItem<C> {
    /// An item with this title, no description or icon, no commands, and the
    /// title as its visit id.
    pub fn new(title: String) -> (li: Self)
        ensures
            li.title@ == title@,
            li.description@ == Seq::<char>::empty(),
            li.icon is None,
            li.visit_id.0@ == title@,
            li.callbacks@ == Map::<Seq<char>, C>::empty(),
    {
        let visit = title.clone();
        Self {
            title,
            icon: None,
            description: String::new(),
            visit_id: VisitId(visit),
            callbacks: TargetCallbacks::new(),
        }
    }

    pub fn with_description(self, desc: String) -> (li: Self)
        ensures
            li == (ListItem { description: desc, ..self }),
    {
        ListItem { description: desc, ..self }
    }

    pub fn with_icon(self, icon: Option<Icon>) -> (li: Self)
        ensures
            li == (ListItem { icon, ..self }),
    {
        ListItem { icon, ..self }
    }

    pub fn with_icon_name(self, name: String) -> (li: Self)
        ensures
            li == (ListItem { icon: Some(Icon::Name(name)), ..self }),
    {
        ListItem { icon: Some(Icon::Name(name)), ..self }
    }

    pub fn with_icon_text(self, text: String) -> (li: Self)
        ensures
            li == (ListItem { icon: Some(Icon::Text(text)), ..self }),
    {
        ListItem { icon: Some(Icon::Text(text)), ..self }
    }

    pub fn with_visit_id(self, id: VisitId) -> (li: Self)
        ensures
            li == (ListItem { visit_id: id, ..self }),
    {
        ListItem { visit_id: id, ..self }
    }

    /// The id that counts how often this item was used.
    ///
    /// If not explicitly set, the visit id is the item title.
    pub fn visit_id(&self) -> (r: &VisitId)
        ensures
            *r == self.visit_id,
    {
        &self.visit_id
    }

    /// Adds a command that can be called on this item.
    pub fn add_command(self, name: &str, callback: C) -> (li: Self)
        ensures
            li.title == self.title,
            li.description == self.description,
            li.icon == self.icon,
            li.visit_id == self.visit_id,
            li.callbacks@ == self.callbacks@.insert(name@, callback),
    {
        let ListItem { title, description, icon, visit_id, callbacks } = self;
        let mut callbacks = callbacks;
        callbacks.add_callback(CommandId::new(name), callback);
        ListItem { title, description, icon, visit_id, callbacks }
    }
}

#[derive(Debug, Clone)]
pub enum Icon {
    Name(String),
    Text(String),
}

/// Provides methods to interact with the app menu: each gives the response
/// that, written as a line to stdout, performs the action.
pub struct Menu {
    /// The request ID that all responses are replying to.
    pub request_id: proto::RequestId,
}

impl Menu {
    fn send_action(&self, action: Action) -> (r: proto::Response)
        ensures
            r.request_id == self.request_id,
            r.response == proto::ResponseBody::PerformAction(action.0),
    {
        proto::Response::perform_action(self.request_id, self::action(action))
    }

    pub fn close(&self) -> (r: proto::Response)
        ensures
            r.request_id == self.request_id,
            r.response == proto::ResponseBody::PerformAction(proto::PluginAction::Close),
    {
        self.send_action(Action::close())
    }

    pub fn copy(&self, str: String) -> (r: proto::Response)
        ensures
            r.request_id == self.request_id,
            r.response == proto::ResponseBody::PerformAction(proto::PluginAction::Copy(str)),
    {
        self.send_action(Action::copy(str))
    }

    pub fn set_input(&self, input: Input) -> (r: proto::Response)
        ensures
            r.request_id == self.request_id,
            r.response == proto::ResponseBody::PerformAction(
                proto::PluginAction::SetInput(input_spec(input)),
            ),
    {
        self.send_action(Action::set_input(input))
    }

    pub fn display_error(&self, err: String) -> (r: proto::Response)
        ensures
            r.request_id == self.request_id,
            r.response == proto::ResponseBody::PerformAction(
                proto::PluginAction::DisplayError(err),
            ),
    {
        self.send_action(Action::display_error(err))
    }
}

/// The user's configuration of a plugin, read from the text covey hands it.
pub trait ManifestDeserialization: Sized {
    /// Constructs `Self` from the user's plugin configuration.
    ///
    /// The input string is currently in JSON format.
    fn try_from_input(s: &str) -> Result<Self, DeserializationError>;
}

impl ManifestDeserialization for () {
    /// Ignores the input string and always succeeds.
    fn try_from_input(s: &str) -> (r: Result<Self, DeserializationError>)
        ensures
            r is Ok,
    {
        Ok(())
    }
}

/// Error obtained from deserializing the user's plugin configuration.
#[derive(Debug, Clone)]
pub struct DeserializationError(pub String);

impl DeserializationError {
    /// The message of this error.
    pub fn to_string(&self) -> (r: String)
        ensures
            r@ == "failed to deserialize plugin configuration: "@ + self.0@,
    {
        let mut s = "failed to deserialize plugin configuration: ".to_owned();
        s.append(self.0.as_str());
        s
    }
}

// Conversions into the wire messages.

pub open spec fn list_style_spec(ls: ListStyle) -> proto::ListStyle {
    match ls {
        ListStyle::Rows => proto::ListStyle::Rows,
        ListStyle::Grid => proto::ListStyle::Grid,
        ListStyle::GridWithColumns(columns) => proto::ListStyle::GridWithColumns(columns),
    }
}

/// A list style is sent as the style of the same name: rows as rows, a grid
/// as a grid, and a grid with `n` columns as a grid with `n` columns.
pub proof fn lemma_list_style_kept(ls: ListStyle)
    ensures
        (list_style_spec(ls) == proto::ListStyle::Rows) <==> (ls == ListStyle::Rows),
        (list_style_spec(ls) == proto::ListStyle::Grid) <==> (ls == ListStyle::Grid),
        forall|n: u32|
            (list_style_spec(ls) == proto::ListStyle::GridWithColumns(n)) <==> (ls
                == ListStyle::GridWithColumns(n)),
{
}

pub fn list_style(ls: ListStyle) -> (r: proto::ListStyle)
    ensures
        r == list_style_spec(ls),
{
    match ls {
        ListStyle::Rows => proto::ListStyle::Rows,
        ListStyle::Grid => proto::ListStyle::Grid,
        ListStyle::GridWithColumns(columns) => proto::ListStyle::GridWithColumns(columns),
    }
}

pub open spec fn icon_spec(icon: Icon) -> proto::ListItemIcon {
    match icon {
        Icon::Name(name) => proto::ListItemIcon::Name(name),
        Icon::Text(text) => proto::ListItemIcon::Text(text),
    }
}

/// An icon is sent with the kind it was given: a named icon as the icon of
/// that name, and a text icon as that text.
pub proof fn lemma_icon_kept(i: Icon)
    ensures
        forall|name: String| (icon_spec(i) == proto::ListItemIcon::Name(name)) <==> (i == Icon::Name(name)),
        forall|text: String| (icon_spec(i) == proto::ListItemIcon::Text(text)) <==> (i == Icon::Text(text)),
{
}

pub fn icon(i: Icon) -> (r: proto::ListItemIcon)
    ensures
        r == icon_spec(i),
{
    match i {
        Icon::Name(name) => proto::ListItemIcon::Name(name),
        Icon::Text(text) => proto::ListItemIcon::Text(text),
    }
}

pub fn action(a: Action) -> (r: proto::PluginAction)
    ensures
        r == a.0,
{
    a.0
}

pub open spec fn input_spec(input: Input) -> proto::Input {
    proto::Input {
        query: input.query,
        selection: Range { start: input.selection.lower_bound, end: input.selection.upper_bound },
    }
}

pub fn input(inp: Input) -> (r: proto::Input)
    ensures
        r == input_spec(inp),
{
    let Input { query, selection } = inp;
    proto::Input { query, selection: selection.to_range() }
}

} // verus!
