//! Messages exchanged between covey and a plugin, as newline delimited JSON
//! over stdin/out.

use core::ops::Range;

use vstd::prelude::*;

pub use crate::id::CommandId;

verus! {

/// The ID that a response names to say which request it answers.
#[derive(Debug, Clone, Copy, PartialEq, Eq, Structural, PartialOrd, Ord)]
pub struct RequestId(pub u64);

/// A request sent to a plugin.
#[derive(Debug)]
pub struct Request {
    pub id: RequestId,
    pub request: RequestBody,
}

impl Request {
    /// A request to list the results of `query`.
    pub fn query(id: RequestId, query: String) -> (r: Self)
        ensures
            r.id == id,
            r.request == RequestBody::Query(RequestQuery { text: query }),
    {
        Self { id, request: RequestBody::Query(RequestQuery { text: query }) }
    }

    /// A request to run the command `command_id` on the target `item_id`.
    pub fn activate(id: RequestId, item_id: ActivationTarget, command_id: CommandId) -> (r: Self)
        ensures
            r.id == id,
            r.request == RequestBody::Activate(
                RequestActivate { target_id: item_id, command_id },
            ),
    {
        Self {
            id,
            request: RequestBody::Activate(RequestActivate { target_id: item_id, command_id }),
        }
    }
}

#[derive(Debug)]
pub enum RequestBody {
    Query(RequestQuery),
    Activate(RequestActivate),
}

#[derive(Debug)]
pub struct RequestQuery {
    pub text: String,
}

#[derive(Debug)]
pub struct RequestActivate {
    pub target_id: ActivationTarget,
    pub command_id: CommandId,
}

/// A response sent by the plugin against a [`Request`].
#[derive(Debug, Clone)]
pub struct Response {
    pub request_id: RequestId,
    pub response: ResponseBody,
}

impl Response {
    /// The list of results answering a query.
    pub fn set_list(request_id: RequestId, list: List) -> (r: Self)
        ensures
            r.request_id == request_id,
            r.response == ResponseBody::SetList(list),
    {
        Self { request_id, response: ResponseBody::SetList(list) }
    }

    /// An action for covey to perform, answering an activation.
    pub fn perform_action(request_id: RequestId, action: PluginAction) -> (r: Self)
        ensures
            r.request_id == request_id,
            r.response == ResponseBody::PerformAction(action),
    {
        Self { request_id, response: ResponseBody::PerformAction(action) }
    }

    /// An error to show to the user.
    pub fn display_error(request_id: RequestId, error: String) -> (r: Self)
        ensures
            r.request_id == request_id,
            r.response == ResponseBody::PerformAction(PluginAction::DisplayError(error)),
    {
        Self::perform_action(request_id, PluginAction::DisplayError(error))
    }
}

#[derive(Debug, Clone)]
pub enum ResponseBody {
    /// Response to [`RequestBody::Query`].
    SetList(List),
    /// Response to [`RequestBody::Activate`]. Can be sent multiple times.
    PerformAction(PluginAction),
}

#[derive(Debug, Clone)]
pub enum PluginAction {
    Close,
    Copy(String),
    SetInput(Input),
    DisplayError(String),
}

#[derive(Debug)]
pub struct Input {
    pub query: String,
    pub selection: Range<usize>,
}

impl Clone for Input {
    fn clone(&self) -> (r: Self)
        ensures
            r == *self,
    {
        Input {
            query: self.query.clone(),
            selection: Range { start: self.selection.start, end: self.selection.end },
        }
    }
}

/// A unique ID for a target that can be activated.
#[derive(Debug, Clone, Copy, PartialEq, Eq, Structural, PartialOrd, Ord, Hash)]
pub struct ActivationTarget(pub u64);

#[derive(Debug, Clone)]
pub struct List {
    pub items: Vec<ListItem>,
    pub style: Option<ListStyle>,
    pub id: ActivationTarget,
    /// Commands that are not tied to a particular list item.
    ///
    /// If a list item has an available command with the same command ID, the
    /// list item command will be ran instead of this command.
    pub commands: Vec<CommandId>,
}

#[derive(Debug, Clone, Copy, PartialEq, Eq, Structural)]
pub enum ListStyle {
    Rows,
    Grid,
    GridWithColumns(u32),
}

#[derive(Debug, Clone)]
pub struct ListItem {
    pub title: String,
    pub description: String,
    pub icon: Option<ListItemIcon>,
    pub id: ActivationTarget,
    pub commands: Vec<CommandId>,
}

#[derive(Debug, Clone)]
pub enum ListItemIcon {
    Name(String),
    Text(String),
}

} // verus!
