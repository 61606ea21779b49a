//! Decisions of the launcher window: messages between instances, what an
//! action does to the window state, and moving the selection.

use vstd::prelude::*;

use crate::commands::{Hotkey, Key};
use crate::result_list::{bounded_wrapping_add, bounded_wrapping_sub};
use crate::text::{debug_quoted, debug_str};

verus! {

/// A message from another instance of the launcher.
#[derive(Debug, Clone, Copy, PartialEq, Eq, Structural, PartialOrd, Ord, Hash)]
pub enum Message {
    Open,
    OpenAndStay,
    Exit,
}

/// What the launcher was asked to do on the command line.
#[derive(Debug, Clone, Copy, PartialEq, Eq, Structural)]
pub enum CliCommand {
    /// Open the window; with `stay_open`, keep it open when it loses focus.
    Open { stay_open: bool },
    /// Exit the running instance.
    Exit,
}

impl Default for CliCommand {
    fn default() -> (c: Self)
        ensures
            c == (CliCommand::Open { stay_open: false }),
    {
        CliCommand::Open { stay_open: false }
    }
}

/// Whether `c` has the Unicode `White_Space` property.
pub open spec fn is_white_space(c: char) -> bool {
    ||| '\t' <= c <= '\r'
    ||| c == ' '
    ||| c == '\u{85}'
    ||| c == '\u{A0}'
    ||| c == '\u{1680}'
    ||| '\u{2000}' <= c <= '\u{200A}'
    ||| c == '\u{2028}'
    ||| c == '\u{2029}'
    ||| c == '\u{202F}'
    ||| c == '\u{205F}'
    ||| c == '\u{3000}'
}

/// Calls `char::is_whitespace`, documented to tell whether the character
/// has the Unicode `White_Space` property.
#[verifier::external_body]
fn char_is_whitespace(c: char) -> (r: bool)
    ensures
        r == is_white_space(c),
{
    c.is_whitespace()
}

/// `s` without its leading white space.
pub open spec fn trim_start(s: Seq<char>) -> Seq<char>
    decreases s.len(),
{
    if s.len() > 0 && is_white_space(s[0]) {
        trim_start(s.drop_first())
    } else {
        s
    }
}

/// `s` without its trailing white space.
pub open spec fn trim_end(s: Seq<char>) -> Seq<char>
    decreases s.len(),
{
    if s.len() > 0 && is_white_space(s.last()) {
        trim_end(s.drop_last())
    } else {
        s
    }
}

/// `s` without leading and trailing white space, as `str::trim` gives it.
pub open spec fn trim(s: Seq<char>) -> Seq<char> {
    trim_end(trim_start(s))
}

/// The message named by a request line after trimming: "open", "open stay"
/// or "exit".
pub open spec fn message_of(s: Seq<char>) -> Option<Message> {
    if s == "open"@ {
        Some(Message::Open)
    } else if s == "open stay"@ {
        Some(Message::OpenAndStay)
    } else if s == "exit"@ {
        Some(Message::Exit)
    } else {
        None
    }
}

/// Removes leading and trailing white space.
pub fn trim_str(s: &str) -> (r: &str)
    ensures
        r@ == trim(s@),
{
    let n = s.unicode_len();
    let mut start: usize = 0;
    assert(s@.subrange(0, n as int) =~= s@);
    while start < n && char_is_whitespace(s.get_char(start))
        invariant
            n == s@.len(),
            start <= n,
            trim_start(s@) == trim_start(s@.subrange(start as int, n as int)),
        decreases n - start,
    {
        assert(s@.subrange(start as int, n as int).drop_first() =~= s@.subrange(
            start + 1,
            n as int,
        ));
        start = start + 1;
    }
    assert(trim_start(s@.subrange(start as int, n as int)) == s@.subrange(start as int, n as int));
    let mut end: usize = n;
    while end > start && char_is_whitespace(s.get_char(end - 1))
        invariant
            n == s@.len(),
            start <= end <= n,
            trim(s@) == trim_end(s@.subrange(start as int, end as int)),
        decreases end - start,
    {
        assert(s@.subrange(start as int, end as int).drop_last() =~= s@.subrange(
            start as int,
            end - 1,
        ));
        end = end - 1;
    }
    s.substring_char(start, end)
}

/// Reads a request line sent by another instance.
///
/// Surrounding white space (such as the line's newline) is ignored; any
/// other request is unknown and gives `None`.
pub fn parse_request(request: &str) -> (r: Option<Message>)
    ensures
        r == message_of(trim(request@)),
{
    let t = trim_str(request);
    let n = t.unicode_len();
    proof {
        reveal_strlit("open");
        reveal_strlit("open stay");
        reveal_strlit("exit");
    }
    if n == 4 && t.get_char(0) == 'o' && t.get_char(1) == 'p' && t.get_char(2) == 'e'
        && t.get_char(3) == 'n' {
        assert(t@ =~= "open"@);
        Some(Message::Open)
    } else if n == 9 && t.get_char(0) == 'o' && t.get_char(1) == 'p' && t.get_char(2) == 'e'
        && t.get_char(3) == 'n' && t.get_char(4) == ' ' && t.get_char(5) == 's' && t.get_char(6)
        == 't' && t.get_char(7) == 'a' && t.get_char(8) == 'y' {
        assert(t@ =~= "open stay"@);
        Some(Message::OpenAndStay)
    } else if n == 4 && t.get_char(0) == 'e' && t.get_char(1) == 'x' && t.get_char(2) == 'i'
        && t.get_char(3) == 't' {
        assert(t@ =~= "exit"@);
        Some(Message::Exit)
    } else {
        None
    }
}

/// The error for a request line that names no message: "unknown message"
/// and the line without its trailing white space, quoted.
pub fn unknown_request_message(request: &str) -> (r: String)
    ensures
        r@ == "unknown message "@ + debug_quoted(trim_end(request@)),
{
    let n = request.unicode_len();
    let mut end: usize = n;
    assert(request@.subrange(0, n as int) =~= request@);
    while end > 0 && char_is_whitespace(request.get_char(end - 1))
        invariant
            n == request@.len(),
            end <= n,
            trim_end(request@) == trim_end(request@.subrange(0, end as int)),
        decreases end,
    {
        assert(request@.subrange(0, end as int).drop_last() =~= request@.subrange(0, end - 1));
        end = end - 1;
    }
    let kept = request.substring_char(0, end);
    let mut r = "unknown message ".to_owned();
    r.append(debug_str(kept).as_str());
    r
}

/// The request line to send to a running instance for a command given on
/// the command line.
pub fn request_line(cmd: CliCommand) -> (r: &'static str)
    ensures
        r@ == match cmd {
            CliCommand::Open { stay_open: false } => "open\n"@,
            CliCommand::Open { stay_open: true } => "open stay\n"@,
            CliCommand::Exit => "exit\n"@,
        },
{
    match cmd {
        CliCommand::Open { stay_open: false } => "open\n",
        CliCommand::Open { stay_open: true } => "open stay\n",
        CliCommand::Exit => "exit\n",
    }
}

/// The message that a running instance reads from the request line sent
/// for a command.
pub open spec fn message_for(cmd: CliCommand) -> Message {
    match cmd {
        CliCommand::Open { stay_open: false } => Message::Open,
        CliCommand::Open { stay_open: true } => Message::OpenAndStay,
        CliCommand::Exit => Message::Exit,
    }
}

/// A request line sent for a command is read back as that command's message.
pub proof fn lemma_request_line_read_back(cmd: CliCommand, line: Seq<char>)
    requires
        line == match cmd {
            CliCommand::Open { stay_open: false } => "open\n"@,
            CliCommand::Open { stay_open: true } => "open stay\n"@,
            CliCommand::Exit => "exit\n"@,
        },
    ensures
        message_of(trim(line)) == Some(message_for(cmd)),
{
    reveal_strlit("open\n");
    reveal_strlit("open stay\n");
    reveal_strlit("exit\n");
    reveal_strlit("open");
    reveal_strlit("open stay");
    reveal_strlit("exit");
    let body = line.drop_last();
    assert(line.len() > 0 && line.last() == '\n');
    assert(!is_white_space(line[0]));
    assert(trim_start(line) == line);
    assert(trim_end(line) == trim_end(body));
    assert(!is_white_space(body.last()));
    assert(trim_end(body) == body);
    match cmd {
        CliCommand::Open { stay_open: false } => assert(body =~= "open"@),
        CliCommand::Open { stay_open: true } => assert(body =~= "open stay"@),
        CliCommand::Exit => assert(body =~= "exit"@),
    }
}

/// Settings of the window.
#[derive(Debug, Clone, Copy, PartialEq, Eq, Structural)]
pub struct GuiSettings {
    pub close_on_blur: bool,
}

/// The settings of the first instance, started with `cmd`; `None` when
/// there is no window to open (an exit with no running instance).
pub fn primary_settings(cmd: CliCommand) -> (r: Option<GuiSettings>)
    ensures
        r == match cmd {
            CliCommand::Open { stay_open } => Some(GuiSettings { close_on_blur: !stay_open }),
            CliCommand::Exit => None,
        },
{
    match cmd {
        CliCommand::Open { stay_open } => Some(GuiSettings { close_on_blur: !stay_open }),
        CliCommand::Exit => None,
    }
}

/// Control flow of the application that should be taken after an action has
/// been handled.
#[derive(Debug, Clone, Copy, PartialEq, Eq, Structural)]
pub enum AppControlFlow {
    /// Let the app continue as normal (open/closed stays as is).
    Continue,
    /// Open the GUI if the window is not already open.
    OpenGui,
    /// Close the GUI but continue waiting for more commands in the background.
    CloseGui,
    /// Close the GUI and exit the entire process.
    ExitProcess,
}

/// Changes made within the current frame that the ui elements may need to be
/// aware of.
///
/// These do not persist across multiple frames.
#[derive(Debug, Clone, Copy)]
pub struct RenderingState {
    pub new_cursor_selection: Option<(usize, usize)>,
    pub list_selection_changed: bool,
    pub window_is_focused: bool,
}

/// The input text and the selected part of it that a plugin asks for.
#[derive(Debug)]
pub struct GuiInput {
    pub contents: String,
    pub selection: (usize, usize),
}

/// An action a plugin asks the window to perform.
pub enum GuiAction<L> {
    Close,
    Copy(String),
    /// An error with a title and a description.
    DisplayError(String, String),
    SetInput(GuiInput),
    SetList(L),
}

/// The state of the launcher window.
pub struct App<L> {
    /// The text of the input field.
    pub input: String,
    /// The results shown, if any.
    pub list: Option<L>,
    /// The position of the selected result.
    pub list_selection: usize,
    /// Whether the window has been focused since it last opened.
    pub app_has_been_focused: bool,
    pub gui_settings: GuiSettings,
    /// Whether the window should be closed.
    pub is_closed: bool,
}

impl<L> App<L> {
    /// A closed window with an empty input and no results.
    pub fn new(gui_settings: GuiSettings) -> (a: Self)
        ensures
            a.input@ == Seq::<char>::empty(),
            a.list is None,
            a.list_selection == 0,
            !a.app_has_been_focused,
            a.gui_settings == gui_settings,
            a.is_closed,
    {
        App {
            input: String::new(),
            list: None,
            list_selection: 0,
            app_has_been_focused: false,
            gui_settings,
            is_closed: true,
        }
    }

    /// Handles a message from another instance.
    pub fn handle_cli_action(&mut self, action: Message) -> (flow: AppControlFlow)
        ensures
            final(self).input == old(self).input,
            final(self).list == old(self).list,
            final(self).list_selection == old(self).list_selection,
            final(self).app_has_been_focused == old(self).app_has_been_focused,
            match action {
                Message::Exit => flow == AppControlFlow::ExitProcess && final(self).is_closed
                    && final(self).gui_settings == old(self).gui_settings,
                Message::OpenAndStay => flow == AppControlFlow::OpenGui && !final(self).gui_settings.close_on_blur && final(self).is_closed == old(self).is_closed,
                Message::Open => flow == AppControlFlow::OpenGui && final(self).gui_settings == old(self).gui_settings && final(self).is_closed == old(self).is_closed,
            },
    {
        match action {
            Message::Exit => {
                self.is_closed = true;
                AppControlFlow::ExitProcess
            },
            Message::OpenAndStay => {
                self.gui_settings.close_on_blur = false;
                AppControlFlow::OpenGui
            },
            Message::Open => AppControlFlow::OpenGui,
        }
    }

    /// Handles an action from a plugin, giving the control flow and the
    /// query to send to the plugins, if the input changed.
    ///
    /// Copying and displaying errors are left to the caller, which performs
    /// them before continuing.
    pub fn handle_plugin_action(&mut self, action: GuiAction<L>, rendering_state: &mut RenderingState) -> (r: (AppControlFlow, Option<String>))
        ensures
            final(self).app_has_been_focused == old(self).app_has_been_focused,
            final(self).gui_settings == old(self).gui_settings,
            final(rendering_state).window_is_focused == old(rendering_state).window_is_focused,
            match action {
                GuiAction::Close => {
                    &&& r == (AppControlFlow::CloseGui, None::<String>)
                    &&& final(self).is_closed
                    &&& final(self).input == old(self).input
                    &&& final(self).list == old(self).list
                    &&& final(self).list_selection == old(self).list_selection
                    &&& *final(rendering_state) == *old(rendering_state)
                },
                GuiAction::Copy(_) | GuiAction::DisplayError(_, _) => {
                    &&& r == (AppControlFlow::Continue, None::<String>)
                    &&& final(self).is_closed == old(self).is_closed
                    &&& final(self).input == old(self).input
                    &&& final(self).list == old(self).list
                    &&& final(self).list_selection == old(self).list_selection
                    &&& *final(rendering_state) == *old(rendering_state)
                },
                GuiAction::SetInput(input) => {
                    &&& r.0 == AppControlFlow::Continue
                    &&& (match r.1 {
                        Some(q) => input.contents@ != old(self).input@ && q@ == input.contents@,
                        None => input.contents@ == old(self).input@,
                    })
                    &&& final(self).input == input.contents
                    &&& final(self).is_closed == old(self).is_closed
                    &&& final(self).list == old(self).list
                    &&& final(self).list_selection == old(self).list_selection
                    &&& final(rendering_state).new_cursor_selection == Some(input.selection)
                    &&& final(rendering_state).list_selection_changed == old(rendering_state).list_selection_changed
                },
                GuiAction::SetList(list) => {
                    &&& r == (AppControlFlow::Continue, None::<String>)
                    &&& final(self).list == Some(list)
                    &&& final(self).list_selection == 0
                    &&& final(self).input == old(self).input
                    &&& final(self).is_closed == old(self).is_closed
                    &&& final(rendering_state).list_selection_changed
                    &&& final(rendering_state).new_cursor_selection == old(rendering_state).new_cursor_selection
                },
            },
    {
        match action {
            GuiAction::Close => {
                self.is_closed = true;
                (AppControlFlow::CloseGui, None)
            },
            GuiAction::Copy(_) => (AppControlFlow::Continue, None),
            GuiAction::DisplayError(_, _) => (AppControlFlow::Continue, None),
            GuiAction::SetInput(GuiInput { contents, selection }) => {
                // Another query to update the plugin on what it changed.
                let query = if contents != self.input {
                    Some(contents.clone())
                } else {
                    None
                };
                self.input = contents;
                rendering_state.new_cursor_selection = Some(selection);
                (AppControlFlow::Continue, query)
            },
            GuiAction::SetList(list) => {
                self.list = Some(list);
                self.list_selection = 0;
                rendering_state.list_selection_changed = true;
                (AppControlFlow::Continue, None)
            },
        }
    }

    /// Moves the selection down by one among `len` results, wrapping to the
    /// top, and notes the change for this frame.
    pub fn select_next(&mut self, len: usize, rendering_state: &mut RenderingState)
        requires
            len > 0 ==> old(self).list_selection < usize::MAX,
        ensures
            len == 0 ==> final(self).list_selection == 0,
            len > 0 ==> final(self).list_selection == (old(self).list_selection + 1) % (len as int),
            final(rendering_state).list_selection_changed,
            final(rendering_state).new_cursor_selection == old(rendering_state).new_cursor_selection,
            final(rendering_state).window_is_focused == old(rendering_state).window_is_focused,
            final(self).input == old(self).input,
            final(self).list == old(self).list,
            final(self).is_closed == old(self).is_closed,
            final(self).gui_settings == old(self).gui_settings,
            final(self).app_has_been_focused == old(self).app_has_been_focused,
    {
        self.list_selection = bounded_wrapping_add(self.list_selection, 1, len);
        rendering_state.list_selection_changed = true;
    }

    /// Moves the selection up by one among `len` results, wrapping to the
    /// bottom, and notes the change for this frame.
    pub fn select_previous(&mut self, len: usize, rendering_state: &mut RenderingState)
        requires
            len > 0 ==> old(self).list_selection + len <= usize::MAX,
        ensures
            len == 0 ==> final(self).list_selection == 0,
            len > 0 ==> final(self).list_selection == (old(self).list_selection - 1) % (len as int),
            final(rendering_state).list_selection_changed,
            final(rendering_state).new_cursor_selection == old(rendering_state).new_cursor_selection,
            final(rendering_state).window_is_focused == old(rendering_state).window_is_focused,
            final(self).input == old(self).input,
            final(self).list == old(self).list,
            final(self).is_closed == old(self).is_closed,
            final(self).gui_settings == old(self).gui_settings,
            final(self).app_has_been_focused == old(self).app_has_been_focused,
    {
        self.list_selection = bounded_wrapping_sub(self.list_selection, 1, len);
        rendering_state.list_selection_changed = true;
    }

    /// Drops the shown results, so that none of their now stale items can be
    /// activated, and gives the query to send again once the plugin has
    /// been reloaded: the current input.
    pub fn reload(&mut self) -> (query: String)
        ensures
            query@ == old(self).input@,
            final(self).list is None,
            final(self).input == old(self).input,
            final(self).list_selection == old(self).list_selection,
            final(self).is_closed == old(self).is_closed,
            final(self).gui_settings == old(self).gui_settings,
            final(self).app_has_been_focused == old(self).app_has_been_focused,
    {
        self.list = None;
        self.input.clone()
    }

    /// Marks the window as open, before it is shown.
    pub fn mark_opened(&mut self)
        ensures
            !final(self).is_closed,
            final(self).input == old(self).input,
            final(self).list == old(self).list,
            final(self).list_selection == old(self).list_selection,
            final(self).gui_settings == old(self).gui_settings,
            final(self).app_has_been_focused == old(self).app_has_been_focused,
    {
        self.is_closed = false;
    }

    /// Marks the window as closed once it has stopped running; it must gain
    /// focus again before losing focus can close it.
    pub fn mark_closed(&mut self)
        ensures
            final(self).is_closed,
            !final(self).app_has_been_focused,
            final(self).input == old(self).input,
            final(self).list == old(self).list,
            final(self).list_selection == old(self).list_selection,
            final(self).gui_settings == old(self).gui_settings,
    {
        self.app_has_been_focused = false;
        self.is_closed = true;
    }

    /// Records whether the window is focused this frame, and decides whether
    /// it should close because it lost focus after having had it.
    pub fn close_if_unfocused(&mut self, window_is_focused: bool) -> (close: bool)
        ensures
            final(self).app_has_been_focused == (old(self).app_has_been_focused || window_is_focused),
            close == (old(self).gui_settings.close_on_blur && final(self).app_has_been_focused
                && !window_is_focused),
            final(self).is_closed == (old(self).is_closed || close),
            final(self).gui_settings == old(self).gui_settings,
            final(self).input == old(self).input,
            final(self).list == old(self).list,
            final(self).list_selection == old(self).list_selection,
    {
        self.app_has_been_focused = self.app_has_been_focused || window_is_focused;
        let close = self.gui_settings.close_on_blur && self.app_has_been_focused && !window_is_focused;
        if close {
            self.is_closed = true;
        }
        close
    }
}

/// Whether the rest of the frame is skipped after an action led to `flow`:
/// when the window closes or the process exits.
pub fn ends_frame(flow: AppControlFlow) -> (r: bool)
    ensures
        r == (flow == AppControlFlow::CloseGui || flow == AppControlFlow::ExitProcess),
{
    match flow {
        AppControlFlow::Continue | AppControlFlow::OpenGui => false,
        AppControlFlow::CloseGui | AppControlFlow::ExitProcess => true,
    }
}

/// The hotkey pressed this frame, from the keys newly pressed (each as the
/// key it is, if it is one) and the modifiers held: only a single pressed
/// key that is one of [`Key`]'s makes a hotkey. The platform's command
/// modifier counts as Ctrl; Meta is never set.
pub fn pressed_hotkey(pressed: &Vec<Option<Key>>, command: bool, alt: bool, shift: bool) -> (r: Option<Hotkey>)
    ensures
        r == (if pressed@.len() == 1 && pressed@[0] is Some {
            Some(Hotkey { key: pressed@[0]->0, ctrl: command, alt, shift, meta: false })
        } else {
            None
        }),
{
    if pressed.len() != 1 {
        return None;
    }
    match pressed[0] {
        Some(key) => Some(Hotkey { key, ctrl: command, alt, shift, meta: false }),
        None => None,
    }
}

/// The first hotkey of `hotkeys` that is not in `used`.
pub open spec fn first_unused(hotkeys: Seq<Hotkey>, used: Seq<Hotkey>) -> Option<Hotkey>
    decreases hotkeys.len(),
{
    if hotkeys.len() == 0 {
        None
    } else if !used.contains(hotkeys[0]) {
        Some(hotkeys[0])
    } else {
        first_unused(hotkeys.drop_first(), used)
    }
}

/// The hotkeys taken once the commands have been labelled in order: a
/// command whose label shows a hotkey takes all of its hotkeys.
pub open spec fn hotkeys_taken(commands: Seq<Option<Seq<Hotkey>>>) -> Seq<Hotkey>
    decreases commands.len(),
{
    if commands.len() == 0 {
        Seq::empty()
    } else {
        let before = hotkeys_taken(commands.drop_last());
        match commands.last() {
            Some(hs) => if first_unused(hs, before) is Some {
                before + hs
            } else {
                before
            },
            None => before,
        }
    }
}

/// The hotkey shown beside each command, in order: its first hotkey that no
/// command before it has taken, if any.
pub open spec fn hotkey_labels(commands: Seq<Option<Seq<Hotkey>>>) -> Seq<Option<Hotkey>>
    decreases commands.len(),
{
    if commands.len() == 0 {
        Seq::empty()
    } else {
        hotkey_labels(commands.drop_last()).push(
            match commands.last() {
                Some(hs) => first_unused(hs, hotkeys_taken(commands.drop_last())),
                None => None,
            },
        )
    }
}

/// Whether `h` is in `hotkeys`.
fn contains_hotkey(hotkeys: &Vec<Hotkey>, h: Hotkey) -> (r: bool)
    ensures
        r == hotkeys@.contains(h),
{
    let mut i: usize = 0;
    while i < hotkeys.len()
        invariant
            i <= hotkeys@.len(),
            forall|j: int| 0 <= j < i ==> hotkeys@[j] != h,
        decreases hotkeys@.len() - i,
    {
        if hotkeys[i] == h {
            assert(hotkeys@[i as int] == h);
            return true;
        }
        i = i + 1;
    }
    false
}

/// The first hotkey of `hotkeys` that is not in `used`.
fn find_unused(hotkeys: &Vec<Hotkey>, used: &Vec<Hotkey>) -> (r: Option<Hotkey>)
    ensures
        r == first_unused(hotkeys@, used@),
{
    let mut i: usize = 0;
    assert(hotkeys@.skip(0) =~= hotkeys@);
    while i < hotkeys.len()
        invariant
            i <= hotkeys@.len(),
            first_unused(hotkeys@, used@) == first_unused(hotkeys@.skip(i as int), used@),
        decreases hotkeys@.len() - i,
    {
        let h = hotkeys[i];
        let ghost rest = hotkeys@.skip(i as int);
        assert(rest[0] == h);
        assert(rest.drop_first() =~= hotkeys@.skip(i + 1));
        if !contains_hotkey(used, h) {
            return Some(h);
        }
        i = i + 1;
    }
    assert(hotkeys@.skip(i as int).len() == 0);
    None
}

/// The commands' hotkeys as values.
pub open spec fn commands_view(commands: Seq<Option<Vec<Hotkey>>>) -> Seq<Option<Seq<Hotkey>>> {
    commands.map_values(|c: Option<Vec<Hotkey>>| match c {
        Some(v) => Some(v@),
        None => None,
    })
}

/// The hotkey to show beside each command of the bottom bar, given each
/// command's hotkeys (`None` when it has none), the selected item's commands
/// first and then the list's.
///
/// Several commands can have the same hotkey, but a hotkey only activates
/// the first command that has it: each command shows its first hotkey that
/// no command before it has taken, and a command that shows one takes all
/// of its hotkeys.
pub fn command_hotkey_labels(commands: &Vec<Option<Vec<Hotkey>>>) -> (r: Vec<Option<Hotkey>>)
    ensures
        r@ == hotkey_labels(commands_view(commands@)),
{
    let ghost cv = commands_view(commands@);
    let mut used: Vec<Hotkey> = Vec::new();
    let mut labels: Vec<Option<Hotkey>> = Vec::new();
    let mut i: usize = 0;
    assert(cv.take(0) =~= Seq::<Option<Seq<Hotkey>>>::empty());
    while i < commands.len()
        invariant
            cv == commands_view(commands@),
            cv.len() == commands@.len(),
            i <= commands@.len(),
            used@ == hotkeys_taken(cv.take(i as int)),
            labels@ == hotkey_labels(cv.take(i as int)),
        decreases commands@.len() - i,
    {
        let ghost pre = cv.take(i as int);
        assert(cv.take(i + 1).drop_last() =~= pre);
        assert(cv.take(i + 1).last() == cv[i as int]);
        match &commands[i] {
            Some(hotkeys) => {
                assert(cv[i as int] == Some(hotkeys@));
                let found = find_unused(hotkeys, &used);
                labels.push(found);
                if found.is_some() {
                    let mut j: usize = 0;
                    let ghost before = used@;
                    while j < hotkeys.len()
                        invariant
                            j <= hotkeys@.len(),
                            used@ == before + hotkeys@.take(j as int),
                        decreases hotkeys@.len() - j,
                    {
                        assert(hotkeys@.take(j + 1) =~= hotkeys@.take(j as int).push(hotkeys@[j as int]));
                        used.push(hotkeys[j]);
                        j = j + 1;
                    }
                    assert(hotkeys@.take(hotkeys@.len() as int) =~= hotkeys@);
                }
            },
            None => {
                assert(cv[i as int] is None);
                labels.push(None);
            },
        }
        i = i + 1;
    }
    assert(cv.take(commands@.len() as int) =~= cv);
    labels
}

} // verus!
