//! The host's decisions: which plugin answers a query, which answers are
//! still current, and what the frontend is asked to do.
//!
//! The host itself performs no I/O: it is a state machine that takes the
//! queries typed by the user and the events that plugins send back, and
//! gives the effects that the caller carries out.

use vstd::prelude::*;

verus! {

/// The text of the input field and the selected range of it.
#[derive(Debug)]
pub struct Input {
    pub contents: String,
    pub selection: (u16, u16),
}

impl Clone for Input {
    fn clone(&self) -> (r: Self)
        ensures
            r == *self,
    {
        Input { contents: self.contents.clone(), selection: (self.selection.0, self.selection.1) }
    }
}

/// An action a plugin asks for.
#[derive(Debug, Clone)]
pub enum Action {
    Close,
    /// A program and its arguments, run in the background.
    RunCommand(String, Vec<String>),
    /// A shell command, run in the background with `sh -c`.
    RunShell(String),
    Copy(String),
    SetInput(Input),
}

/// What a plugin sends back.
#[derive(Debug)]
pub enum PluginEvent<L> {
    /// The results of the query that was dispatched with number `index`.
    SetList { list: L, index: u64 },
    /// Actions to perform, in order.
    Run(Vec<Action>),
}

/// What the caller of the host should do.
#[derive(Debug)]
pub enum Effect<L> {
    /// Close the window.
    Close,
    /// Run a program in the background; on failure, show an error.
    RunCommand(String, Vec<String>),
    /// Run a shell command in the background; on failure, show an error.
    RunShell(String),
    /// Copy text to the clipboard.
    Copy(String),
    /// Set the input field.
    SetInput(Input),
    /// Show these results.
    SetList(L),
    /// Show an error with this title and description.
    DisplayError(String, String),
    /// Send `input` to the plugins as the query numbered `index`.
    Query { index: u64, input: String },
}

/// The number of actions of `actions` that set the input (each of them
/// dispatches a new query).
pub open spec fn set_input_count(actions: Seq<Action>) -> nat
    decreases actions.len(),
{
    if actions.len() == 0 {
        0
    } else {
        set_input_count(actions.drop_last()) + if actions.last() is SetInput {
            1nat
        } else {
            0nat
        }
    }
}

/// The effects of performing `a` when the last dispatched query is numbered
/// `dispatched`.
pub open spec fn action_effects<L>(a: Action, dispatched: u64) -> Seq<Effect<L>> {
    match a {
        Action::Close => seq![Effect::Close],
        Action::RunCommand(cmd, args) => seq![Effect::RunCommand(cmd, args)],
        Action::RunShell(cmd) => seq![Effect::RunShell(cmd)],
        Action::Copy(s) => seq![Effect::Copy(s)],
        Action::SetInput(input) => seq![
            Effect::SetInput(input),
            Effect::Query { index: (dispatched + 1) as u64, input: input.contents },
        ],
    }
}

/// The effects of performing `actions` in order, starting when the last
/// dispatched query is numbered `dispatched`.
pub open spec fn actions_effects<L>(actions: Seq<Action>, dispatched: u64) -> Seq<Effect<L>>
    decreases actions.len(),
{
    if actions.len() == 0 {
        Seq::empty()
    } else {
        let d = dispatched + set_input_count(actions.drop_last());
        actions_effects(actions.drop_last(), dispatched) + action_effects(actions.last(), d as u64)
    }
}

/// Performing an action asks for exactly what the action names: closing
/// closes, a program is run with its arguments, a shell command is run, text
/// is copied, and setting the input sets it and then sends it as the next
/// query.
pub proof fn lemma_action_effect<L>(a: Action, dispatched: u64)
    ensures
        a matches Action::Close ==> action_effects::<L>(a, dispatched) == seq![Effect::<L>::Close],
        forall|cmd: String, args: Vec<String>|
            a == Action::RunCommand(cmd, args) ==> action_effects::<L>(a, dispatched) == seq![
                Effect::<L>::RunCommand(cmd, args),
            ],
        forall|cmd: String|
            a == Action::RunShell(cmd) ==> action_effects::<L>(a, dispatched) == seq![
                Effect::<L>::RunShell(cmd),
            ],
        forall|text: String|
            a == Action::Copy(text) ==> action_effects::<L>(a, dispatched) == seq![Effect::<L>::Copy(text)],
        forall|input: Input|
            a == Action::SetInput(input) ==> action_effects::<L>(a, dispatched) == seq![
                Effect::<L>::SetInput(input),
                Effect::<L>::Query { index: (dispatched + 1) as u64, input: input.contents },
            ],
{
}

/// Whether an action does not set the input.
pub open spec fn keeps_input(a: Action) -> bool {
    !(a is SetInput)
}

/// Actions that do not set the input each give one effect, in the same
/// order: a program run with the same program and arguments, a shell
/// command with the same command, the same text copied, or a close.
pub proof fn lemma_plain_actions_effects<L>(actions: Seq<Action>, dispatched: u64)
    requires
        forall|i: int| 0 <= i < actions.len() ==> keeps_input(#[trigger] actions[i]),
    ensures
        actions_effects::<L>(actions, dispatched).len() == actions.len(),
        forall|i: int|
            0 <= i < actions.len() ==> match #[trigger] actions[i] {
                Action::Close => actions_effects::<L>(actions, dispatched)[i] == Effect::<L>::Close,
                Action::RunCommand(cmd, args) => actions_effects::<L>(actions, dispatched)[i]
                    == Effect::<L>::RunCommand(cmd, args),
                Action::RunShell(cmd) => actions_effects::<L>(actions, dispatched)[i]
                    == Effect::<L>::RunShell(cmd),
                Action::Copy(text) => actions_effects::<L>(actions, dispatched)[i] == Effect::<
                    L,
                >::Copy(text),
                Action::SetInput(_) => false,
            },
    decreases actions.len(),
{
    if actions.len() > 0 {
        let init = actions.drop_last();
        assert forall|i: int| 0 <= i < init.len() implies keeps_input(#[trigger] init[i]) by {
            assert(init[i] == actions[i]);
        }
        lemma_plain_actions_effects::<L>(init, dispatched);
        let last = actions.last();
        assert(keeps_input(actions[actions.len() - 1]));
        let d = dispatched + set_input_count(init);
        lemma_action_effect::<L>(last, d as u64);
        let before = actions_effects::<L>(init, dispatched);
        let all = actions_effects::<L>(actions, dispatched);
        assert(all == before + action_effects::<L>(last, d as u64));
        assert forall|i: int| 0 <= i < actions.len() implies match #[trigger] actions[i] {
            Action::Close => all[i] == Effect::<L>::Close,
            Action::RunCommand(cmd, args) => all[i] == Effect::<L>::RunCommand(cmd, args),
            Action::RunShell(cmd) => all[i] == Effect::<L>::RunShell(cmd),
            Action::Copy(text) => all[i] == Effect::<L>::Copy(text),
            Action::SetInput(_) => false,
        } by {
            if i < init.len() {
                assert(actions[i] == init[i]);
                assert(all[i] == before[i]);
            } else {
                assert(actions[i] == last);
                assert(all[i] == action_effects::<L>(last, d as u64)[0]);
            }
        }
    }
}

/// Whether some effect shows a list.
pub open spec fn shows_list<L>(effects: Seq<Effect<L>>) -> bool {
    exists|i: int| 0 <= i < effects.len() && #[trigger] effects[i] is SetList
}

/// Performing actions never shows a list.
proof fn lemma_actions_show_no_list<L>(actions: Seq<Action>, dispatched: u64)
    ensures
        !shows_list(actions_effects::<L>(actions, dispatched)),
    decreases actions.len(),
{
    if actions.len() > 0 {
        lemma_actions_show_no_list::<L>(actions.drop_last(), dispatched);
        let d = dispatched + set_input_count(actions.drop_last());
        let before = actions_effects::<L>(actions.drop_last(), dispatched);
        let more = action_effects::<L>(actions.last(), d as u64);
        assert forall|i: int| 0 <= i < (before + more).len() implies !((before + more)[i] is SetList) by {
            if i < before.len() {
                assert((before + more)[i] == before[i]);
            } else {
                assert((before + more)[i] == more[i - before.len()]);
            }
        }
    }
}

/// The number of the last query whose results were shown, after `event`
/// when it was `activated` before.
pub open spec fn activation_after<L>(activated: u64, event: Result<PluginEvent<L>, String>) -> u64 {
    match event {
        Ok(PluginEvent::SetList { index, .. }) => if index <= activated {
            activated
        } else {
            index
        },
        _ => activated,
    }
}

/// Whether `event` shows a list when the last shown query is `activated`.
pub open spec fn event_shows<L>(activated: u64, event: Result<PluginEvent<L>, String>) -> bool {
    event matches Ok(PluginEvent::SetList { index, .. }) && index > activated
}

/// The number of the last query shown after the events, in order.
pub open spec fn activation_after_all<L>(activated: u64, events: Seq<Result<PluginEvent<L>, String>>) -> u64
    decreases events.len(),
{
    if events.len() == 0 {
        activated
    } else {
        activation_after(activation_after_all(activated, events.drop_last()), events.last())
    }
}

/// The numbers of the queries whose results the events show, in order.
pub open spec fn shown_indices<L>(activated: u64, events: Seq<Result<PluginEvent<L>, String>>) -> Seq<u64>
    decreases events.len(),
{
    if events.len() == 0 {
        Seq::empty()
    } else {
        let before = activation_after_all(activated, events.drop_last());
        shown_indices(activated, events.drop_last()) + if event_shows(before, events.last()) {
            seq![activation_after(before, events.last())]
        } else {
            Seq::empty()
        }
    }
}

/// Over any sequence of events, in any order of arrival: the last shown
/// query never goes back, and the lists shown answer strictly newer queries
/// one after the other, each newer than the one shown before the sequence
/// and none newer than the last shown at its end.
pub proof fn lemma_shown_lists_get_newer<L>(activated: u64, events: Seq<Result<PluginEvent<L>, String>>)
    ensures
        activation_after_all(activated, events) >= activated,
        forall|i: int, j: int|
            0 <= i < j < shown_indices(activated, events).len() ==> shown_indices(activated, events)[i]
                < shown_indices(activated, events)[j],
        forall|i: int|
            0 <= i < shown_indices(activated, events).len() ==> activated < #[trigger] shown_indices(
                activated,
                events,
            )[i] <= activation_after_all(activated, events),
    decreases events.len(),
{
    if events.len() > 0 {
        let init = events.drop_last();
        lemma_shown_lists_get_newer(activated, init);
        let before = activation_after_all(activated, init);
        let prev = shown_indices(activated, init);
        let all = shown_indices(activated, events);
        if event_shows(before, events.last()) {
            assert(all == prev.push(activation_after(before, events.last())));
            assert forall|i: int, j: int| 0 <= i < j < all.len() implies all[i] < all[j] by {
                if j < prev.len() {
                    assert(all[i] == prev[i] && all[j] == prev[j]);
                } else {
                    assert(all[i] == prev[i]);
                }
            }
            assert forall|i: int| 0 <= i < all.len() implies activated < #[trigger] all[i]
                <= activation_after_all(activated, events) by {
                if i < prev.len() {
                    assert(all[i] == prev[i]);
                }
            }
        } else {
            assert(all =~= prev);
        }
    }
}

/// The query numbering of the host.
///
/// Every query gets the next number. The results of a query are shown only
/// if no query with a larger number has had its results shown: a slow
/// plugin never replaces newer results with older ones.
#[derive(Debug, Clone, Copy)]
pub struct Host {
    dispatched_actions: u64,
    activated_actions: u64,
}

impl Host {
    /// The number of the last dispatched query.
    pub closed spec fn dispatched(&self) -> u64 {
        self.dispatched_actions
    }

    /// The number of the query whose results were shown last (0 if none).
    pub closed spec fn activated(&self) -> u64 {
        self.activated_actions
    }

    pub fn new() -> (h: Self)
        ensures
            h.dispatched() == 0,
            h.activated() == 0,
    {
        Host { dispatched_actions: 0, activated_actions: 0 }
    }

    /// How many more queries can be numbered.
    pub fn queries_left(&self) -> (n: u64)
        ensures
            n == u64::MAX - self.dispatched(),
    {
        u64::MAX - self.dispatched_actions
    }

    /// Numbers a new query: it should be sent to the plugins with this number.
    pub fn query(&mut self) -> (index: u64)
        requires
            old(self).dispatched() < u64::MAX,
        ensures
            index == old(self).dispatched() + 1,
            final(self).dispatched() == index,
            final(self).activated() == old(self).activated(),
    {
        self.dispatched_actions = self.dispatched_actions + 1;
        self.dispatched_actions
    }

    /// Handles what a plugin sent back, giving the effects to perform in order.
    ///
    /// An error is shown; results are shown only if they answer a query newer
    /// than the last one shown; actions are performed in order, and setting
    /// the input also dispatches a query with the new input.
    pub fn handle_event<L>(&mut self, event: Result<PluginEvent<L>, String>) -> (effects: Vec<
        Effect<L>,
    >)
        requires
            event matches Ok(PluginEvent::Run(actions)) ==> old(self).dispatched() + set_input_count(
                actions@,
            ) <= u64::MAX,
        ensures
            final(self).activated() == activation_after(old(self).activated(), event),
            shows_list(effects@) == event_shows(old(self).activated(), event),
            match event {
                Err(e) => {
                    &&& effects@.len() == 1
                    &&& effects@[0] matches Effect::DisplayError(title, body) && title@
                        == "Error in plugin"@ && body == e
                    &&& final(self).dispatched() == old(self).dispatched()
                    &&& final(self).activated() == old(self).activated()
                },
                Ok(PluginEvent::SetList { list, index }) => {
                    &&& final(self).dispatched() == old(self).dispatched()
                    &&& if index <= old(self).activated() {
                        &&& effects@.len() == 0
                        &&& final(self).activated() == old(self).activated()
                    } else {
                        &&& effects@ == seq![Effect::SetList(list)]
                        &&& final(self).activated() == index
                    }
                },
                Ok(PluginEvent::Run(actions)) => {
                    &&& effects@ == actions_effects::<L>(actions@, old(self).dispatched())
                    &&& final(self).dispatched() == old(self).dispatched() + set_input_count(
                        actions@,
                    )
                    &&& final(self).activated() == old(self).activated()
                },
            },
    {
        match event {
            Err(e) => {
                let mut effects = Vec::new();
                effects.push(Effect::DisplayError("Error in plugin".to_owned(), e));
                assert(effects@[0] is DisplayError);
                effects
            },
            Ok(PluginEvent::SetList { list, index }) => {
                let mut effects = Vec::new();
                if index <= self.activated_actions {
                    return effects;
                }
                self.activated_actions = index;
                effects.push(Effect::SetList(list));
                assert(effects@[0] is SetList);
                effects
            },
            Ok(PluginEvent::Run(actions)) => {
                let ghost all = actions@;
                let ghost d0 = self.dispatched_actions;
                let mut effects: Vec<Effect<L>> = Vec::new();
                for action in it: actions
                    invariant
                        it.seq() == all,
                        d0 + set_input_count(all) <= u64::MAX,
                        self.activated_actions == old(self).activated_actions,
                        self.dispatched_actions == d0 + set_input_count(all.take(it.index() as int)),
                        effects@ == actions_effects::<L>(all.take(it.index() as int), d0),
                {
                    let ghost i = it.index() as int;
                    proof {
                        assert(all.take(i + 1).drop_last() =~= all.take(i));
                        assert(all.take(i + 1).last() == action);
                        lemma_set_input_count_prefix(all, i + 1);
                    }
                    match action {
                        Action::Close => effects.push(Effect::Close),
                        Action::RunCommand(cmd, args) => effects.push(Effect::RunCommand(cmd, args)),
                        Action::RunShell(cmd) => effects.push(Effect::RunShell(cmd)),
                        Action::Copy(s) => effects.push(Effect::Copy(s)),
                        Action::SetInput(input) => {
                            let contents = input.contents.clone();
                            effects.push(Effect::SetInput(input));
                            self.dispatched_actions = self.dispatched_actions + 1;
                            effects.push(
                                Effect::Query { index: self.dispatched_actions, input: contents },
                            );
                        },
                    }
                    proof {
                        assert(effects@ =~= actions_effects::<L>(all.take(i + 1), d0));
                    }
                }
                proof {
                    assert(all.take(all.len() as int) =~= all);
                    lemma_actions_show_no_list::<L>(all, d0);
                }
                effects
            },
        }
    }
}

/// Prefixes of the actions set the input no more often than all of them.
proof fn lemma_set_input_count_prefix(actions: Seq<Action>, i: int)
    requires
        0 <= i <= actions.len(),
    ensures
        set_input_count(actions.take(i)) <= set_input_count(actions),
    decreases actions.len() - i,
{
    if i < actions.len() {
        lemma_set_input_count_prefix(actions, i + 1);
        assert(actions.take(i + 1).drop_last() =~= actions.take(i));
    } else {
        assert(actions.take(i) =~= actions);
    }
}

/// The plugin that answers `input`: the first whose prefix starts the input.
pub open spec fn first_matching_prefix(prefixes: Seq<Seq<char>>, input: Seq<char>) -> Option<int> {
    if exists|i: int| 0 <= i < prefixes.len() && #[trigger] prefixes[i].is_prefix_of(input) {
        Some(
            choose|i: int|
                0 <= i < prefixes.len() && #[trigger] prefixes[i].is_prefix_of(input) && forall|j: int|
                    0 <= j < i ==> !prefixes[j].is_prefix_of(input),
        )
    } else {
        None
    }
}

/// Whether `prefix` starts `s`.
pub fn starts_with(s: &str, prefix: &str) -> (r: bool)
    ensures
        r == prefix@.is_prefix_of(s@),
{
    let n = prefix.unicode_len();
    if n > s.unicode_len() {
        return false;
    }
    let mut i: usize = 0;
    while i < n
        invariant
            n == prefix@.len(),
            n <= s@.len(),
            i <= n,
            forall|j: int| 0 <= j < i ==> prefix@[j] == s@[j],
        decreases n - i,
    {
        if prefix.get_char(i) != s.get_char(i) {
            return false;
        }
        i = i + 1;
    }
    assert(prefix@ =~= s@.subrange(0, n as int));
    true
}

/// Chooses the plugin to send a query to: the first one (in order) whose
/// prefix starts the input, with the rest of the input after the prefix.
/// `None` means no plugin is activated by this input.
pub fn select_plugin<'a>(prefixes: &Vec<String>, input: &'a str) -> (r: Option<(usize, &'a str)>)
    ensures
        match r {
            Some((i, rest)) => {
                &&& first_matching_prefix(prefixes@.map_values(|p: String| p@), input@) == Some(
                    i as int,
                )
                &&& input@ == prefixes@[i as int]@ + rest@
            },
            None => first_matching_prefix(prefixes@.map_values(|p: String| p@), input@) is None,
        },
{
    let ghost ps = prefixes@.map_values(|p: String| p@);
    let mut i: usize = 0;
    while i < prefixes.len()
        invariant
            ps == prefixes@.map_values(|p: String| p@),
            i <= prefixes@.len(),
            forall|j: int| 0 <= j < i ==> !(#[trigger] ps[j]).is_prefix_of(input@),
        decreases prefixes@.len() - i,
    {
        if starts_with(input, prefixes[i].as_str()) {
            let n = prefixes[i].as_str().unicode_len();
            let rest = input.substring_char(n, input.unicode_len());
            proof {
                assert(ps[i as int].is_prefix_of(input@));
                let c = choose|c: int|
                    0 <= c < ps.len() && #[trigger] ps[c].is_prefix_of(input@) && forall|j: int|
                        0 <= j < c ==> !ps[j].is_prefix_of(input@);
                if c < i {
                } else if c > i {
                    assert(!ps[i as int].is_prefix_of(input@));
                }
                assert(input@ =~= prefixes@[i as int]@ + rest@);
            }
            return Some((i, rest));
        }
        i = i + 1;
    }
    None
}

/// Routes a query: the plugin chosen by [`select_plugin`] and the text it
/// is asked, or the error shown when no plugin's prefix starts the input.
pub fn route_query<'a>(prefixes: &Vec<String>, input: &'a str) -> (r: Result<(usize, &'a str), String>)
    ensures
        match r {
            Ok((i, rest)) => {
                &&& first_matching_prefix(prefixes@.map_values(|p: String| p@), input@) == Some(
                    i as int,
                )
                &&& input@ == prefixes@[i as int]@ + rest@
            },
            Err(e) => {
                &&& first_matching_prefix(prefixes@.map_values(|p: String| p@), input@) is None
                &&& e@ == "no plugin activated"@
            },
        },
{
    match select_plugin(prefixes, input) {
        Some(found) => Ok(found),
        None => Err("no plugin activated".to_owned()),
    }
}

/// The actions that completing a list item leads to: setting the input to
/// the completion, or nothing when the plugin offers none.
pub fn completion_actions(completion: Option<Input>) -> (r: Vec<Action>)
    ensures
        match completion {
            Some(input) => r@ == seq![Action::SetInput(input)],
            None => r@.len() == 0,
        },
{
    let mut actions = Vec::new();
    match completion {
        Some(input) => actions.push(Action::SetInput(input)),
        None => {},
    }
    actions
}

/// The words of `parts` separated by single spaces.
pub open spec fn join_spaces(parts: Seq<Seq<char>>) -> Seq<char>
    decreases parts.len(),
{
    if parts.len() == 0 {
        Seq::empty()
    } else if parts.len() == 1 {
        parts[0]
    } else {
        join_spaces(parts.drop_last()) + " "@ + parts.last()
    }
}

/// The title of the error shown when a program or shell command could not
/// be started.
pub fn run_error_title() -> (r: &'static str)
    ensures
        r@ == "Error running command"@,
{
    "Error running command"
}

/// What failed when running the program `cmd` with `args`:
/// `` failed to run command `cmd arg1 arg2` ``, the arguments separated by
/// spaces (a space follows the program even when there are none).
pub fn run_command_context(cmd: &str, args: &Vec<String>) -> (r: String)
    ensures
        r@ == "failed to run command `"@ + cmd@ + " "@ + join_spaces(args@.map_values(
            |a: String| a@,
        )) + "`"@,
{
    let ghost words = args@.map_values(|a: String| a@);
    let mut joined = String::new();
    let mut i: usize = 0;
    while i < args.len()
        invariant
            i <= args@.len(),
            words == args@.map_values(|a: String| a@),
            joined@ == join_spaces(words.take(i as int)),
        decreases args@.len() - i,
    {
        proof {
            assert(words.take(i + 1).drop_last() =~= words.take(i as int));
            assert(words.take(i + 1).last() == args@[i as int]@);
            if i == 0 {
                assert(words.take(1) =~= seq![args@[0]@]);
            }
        }
        if i > 0 {
            joined.append(" ");
        }
        joined.append(args[i].as_str());
        i = i + 1;
    }
    proof {
        assert(words.take(args@.len() as int) =~= words);
    }
    let mut r = "failed to run command `".to_owned();
    r.append(cmd);
    r.append(" ");
    r.append(joined.as_str());
    r.append("`");
    r
}

/// What failed when running the shell command `cmd`:
/// `` failed to run command `cmd` ``.
pub fn run_shell_context(cmd: &str) -> (r: String)
    ensures
        r@ == "failed to run command `"@ + cmd@ + "`"@,
{
    let mut r = "failed to run command `".to_owned();
    r.append(cmd);
    r.append("`");
    r
}

} // verus!
