//! Bookkeeping of the commands that a plugin can be asked to run on the
//! lists and list items it returned.

use core::ops::Range;
use std::collections::VecDeque;

use vstd::prelude::*;

use crate::id::CommandId;
use crate::plugin::{self, List, ListItem, VisitId};
use crate::proto;
use crate::text::str_eq;

verus! {

/// The map from command names to callbacks that the entries `s` describe.
pub open spec fn entries_map<C>(s: Seq<(CommandId, C)>) -> Map<Seq<char>, C> {
    Map::new(
        |k: Seq<char>| exists|i: int| 0 <= i < s.len() && (#[trigger] s[i]).0@ == k,
        |k: Seq<char>| s[choose|i: int| 0 <= i < s.len() && (#[trigger] s[i]).0@ == k].1,
    )
}

/// No two entries of `s` have the same command name.
pub open spec fn names_unique<C>(s: Seq<(CommandId, C)>) -> bool {
    forall|i: int, j: int| 0 <= i < j < s.len() ==> s[i].0@ != s[j].0@
}

/// The callbacks of one target (a list, or an item of a list), by command.
pub struct TargetCallbacks<C> {
    commands: Vec<(CommandId, C)>,
}

impl<C> View for TargetCallbacks<C> {
    type V = Map<Seq<char>, C>;

    closed spec fn view(&self) -> Map<Seq<char>, C> {
        entries_map(self.commands@)
    }
}

proof fn lemma_entries_map_at<C>(s: Seq<(CommandId, C)>, i: int)
    requires
        names_unique(s),
        0 <= i < s.len(),
    ensures
        entries_map(s).contains_key(s[i].0@),
        entries_map(s)[s[i].0@] == s[i].1,
{
    let k = s[i].0@;
    assert(entries_map(s).dom().contains(k));
    let j = choose|j: int| 0 <= j < s.len() && (#[trigger] s[j]).0@ == k;
    if j != i {
        if j < i {
            assert(s[j].0@ != s[i].0@);
        } else {
            assert(s[i].0@ != s[j].0@);
        }
    }
}

proof fn lemma_entries_map_replace<C>(old: Seq<(CommandId, C)>, i: int, e: (CommandId, C))
    requires
        names_unique(old),
        0 <= i < old.len(),
        old[i].0@ == e.0@,
    ensures
        names_unique(old.update(i, e)),
        entries_map(old.update(i, e)) == entries_map(old).insert(e.0@, e.1),
{
    let s = old.update(i, e);
    let k = e.0@;
    let m = entries_map(old).insert(k, e.1);
    assert forall|a: int, b: int| 0 <= a < b < s.len() implies s[a].0@ != s[b].0@ by {
        assert(old[a].0@ != old[b].0@);
    }
    assert forall|x: Seq<char>| #[trigger] entries_map(s).dom().contains(x) == m.dom().contains(x) by {
        if entries_map(s).dom().contains(x) {
            let j = choose|j: int| 0 <= j < s.len() && (#[trigger] s[j]).0@ == x;
            if j != i {
                assert(old[j] == s[j]);
            }
        }
        if entries_map(old).dom().contains(x) {
            let j = choose|j: int| 0 <= j < old.len() && (#[trigger] old[j]).0@ == x;
            if j != i {
                assert(old[j] == s[j]);
            } else {
                assert(s[i].0@ == x);
            }
        }
        if x == k {
            assert(s[i].0@ == x);
        }
    }
    assert forall|x: Seq<char>| #[trigger] m.dom().contains(x) implies entries_map(s)[x] == m[x] by {
        if x == k {
            lemma_entries_map_at(s, i);
        } else {
            let j = choose|j: int| 0 <= j < old.len() && (#[trigger] old[j]).0@ == x;
            assert(j != i);
            assert(old[j] == s[j]);
            lemma_entries_map_at(s, j);
            lemma_entries_map_at(old, j);
        }
    }
    assert(entries_map(s) =~= m);
}

proof fn lemma_entries_map_push<C>(old: Seq<(CommandId, C)>, e: (CommandId, C))
    requires
        names_unique(old),
        forall|j: int| 0 <= j < old.len() ==> (#[trigger] old[j]).0@ != e.0@,
    ensures
        names_unique(old.push(e)),
        entries_map(old.push(e)) == entries_map(old).insert(e.0@, e.1),
{
    let s = old.push(e);
    let k = e.0@;
    let m = entries_map(old).insert(k, e.1);
    assert forall|a: int, b: int| 0 <= a < b < s.len() implies s[a].0@ != s[b].0@ by {
        if b < old.len() {
            assert(old[a].0@ != old[b].0@);
        } else {
            assert(s[a] == old[a]);
        }
    }
    assert forall|x: Seq<char>| #[trigger] entries_map(s).dom().contains(x) == m.dom().contains(x) by {
        if entries_map(s).dom().contains(x) {
            let j = choose|j: int| 0 <= j < s.len() && (#[trigger] s[j]).0@ == x;
            if j < old.len() {
                assert(old[j] == s[j]);
            }
        }
        if entries_map(old).dom().contains(x) {
            let j = choose|j: int| 0 <= j < old.len() && (#[trigger] old[j]).0@ == x;
            assert(old[j] == s[j]);
        }
        if x == k {
            assert(s[old.len() as int].0@ == x);
        }
    }
    assert forall|x: Seq<char>| #[trigger] m.dom().contains(x) implies entries_map(s)[x] == m[x] by {
        if x == k {
            lemma_entries_map_at(s, old.len() as int);
        } else {
            let j = choose|j: int| 0 <= j < old.len() && (#[trigger] old[j]).0@ == x;
            assert(old[j] == s[j]);
            lemma_entries_map_at(s, j);
            lemma_entries_map_at(old, j);
        }
    }
    assert(entries_map(s) =~= m);
}

/// Finds the position of the entry named `name`.
fn position_of_name<C>(commands: &Vec<(CommandId, C)>, name: &str) -> (r: Option<usize>)
    ensures
        match r {
            Some(i) => i < commands@.len() && commands@[i as int].0@ == name@,
            None => forall|j: int| 0 <= j < commands@.len() ==> (#[trigger] commands@[j]).0@ != name@,
        },
{
    let mut i: usize = 0;
    while i < commands.len()
        invariant
            i <= commands@.len(),
            forall|j: int| 0 <= j < i ==> (#[trigger] commands@[j]).0@ != name@,
        decreases commands@.len() - i,
    {
        if str_eq(commands[i].0.name(), name) {
            return Some(i);
        }
        i = i + 1;
    }
    None
}

impl<C> TargetCallbacks<C> {
    #[verifier::type_invariant]
    spec fn unique_names(self) -> bool {
        names_unique(self.commands@)
    }

    pub fn new() -> (t: Self)
        ensures
            t@ == Map::<Seq<char>, C>::empty(),
    {
        let t = TargetCallbacks { commands: Vec::new() };
        assert(t@ =~= Map::<Seq<char>, C>::empty());
        t
    }

    /// Sets the callback of the command `command_id`, replacing any earlier one.
    pub fn add_callback(&mut self, command_id: CommandId, callback: C)
        ensures
            final(self)@ == old(self)@.insert(command_id@, callback),
    {
        proof {
            use_type_invariant(&*self);
        }
        let ghost k = command_id@;
        let ghost old_entries = self.commands@;
        let mut commands = Vec::new();
        core::mem::swap(&mut commands, &mut self.commands);
        match position_of_name(&commands, command_id.name()) {
            Some(i) => {
                let ghost e = (command_id, callback);
                commands.set(i, (command_id, callback));
                proof {
                    lemma_entries_map_replace(old_entries, i as int, e);
                }
            },
            None => {
                let ghost e = (command_id, callback);
                commands.push((command_id, callback));
                proof {
                    lemma_entries_map_push(old_entries, e);
                }
            },
        }
        self.commands = commands;
    }

    /// The callback of the command `command_id`, if there is one.
    pub fn get_callback(&self, command_id: &CommandId) -> (r: Option<&C>)
        ensures
            match r {
                Some(c) => self@.contains_key(command_id@) && *c == self@[command_id@],
                None => !self@.contains_key(command_id@),
            },
    {
        proof {
            use_type_invariant(self);
        }
        match position_of_name(&self.commands, command_id.name()) {
            Some(i) => {
                proof {
                    lemma_entries_map_at(self.commands@, i as int);
                }
                Some(&self.commands[i].1)
            },
            None => None,
        }
    }

    /// The names of the commands that have a callback, each once.
    pub fn ids(&self) -> (r: Vec<CommandId>)
        ensures
            forall|i: int, j: int| 0 <= i < j < r@.len() ==> r@[i]@ != r@[j]@,
            forall|i: int| 0 <= i < r@.len() ==> self@.contains_key(#[trigger] r@[i]@),
            forall|k: Seq<char>|
                self@.contains_key(k) ==> exists|i: int| 0 <= i < r@.len() && #[trigger] r@[i]@ == k,
    {
        proof {
            use_type_invariant(self);
        }
        let mut r: Vec<CommandId> = Vec::new();
        let mut i: usize = 0;
        while i < self.commands.len()
            invariant
                i <= self.commands@.len(),
                names_unique(self.commands@),
                r@.len() == i,
                forall|j: int| 0 <= j < i ==> #[trigger] r@[j]@ == self.commands@[j].0@,
            decreases self.commands@.len() - i,
        {
            r.push(self.commands[i].0.clone());
            i = i + 1;
        }
        proof {
            assert forall|a: int| 0 <= a < r@.len() implies self@.contains_key(#[trigger] r@[a]@) by {
                lemma_entries_map_at(self.commands@, a);
            }
            assert forall|k: Seq<char>| self@.contains_key(k) implies exists|a: int|
                0 <= a < r@.len() && #[trigger] r@[a]@ == k by {
                let j = choose|j: int|
                    0 <= j < self.commands@.len() && (#[trigger] self.commands@[j]).0@ == k;
                assert(r@[j]@ == k);
            }
        }
        r
    }
}

/// The command names of `ids`, in order.
pub open spec fn names_of(ids: Seq<CommandId>) -> Seq<Seq<char>> {
    ids.map_values(|c: CommandId| c@)
}

/// `ids` names every command of `m` exactly once.
pub open spec fn lists_commands_of<C>(ids: Seq<CommandId>, m: Map<Seq<char>, C>) -> bool {
    &&& forall|i: int, j: int| 0 <= i < j < ids.len() ==> ids[i]@ != ids[j]@
    &&& forall|i: int| 0 <= i < ids.len() ==> m.contains_key(#[trigger] ids[i]@)
    &&& forall|k: Seq<char>| m.contains_key(k) ==> exists|i: int| 0 <= i < ids.len() && #[trigger] ids[i]@ == k
}

/// A stored list: its own target ID and callbacks, and those of its items,
/// whose target IDs follow the list's one after the other.
pub struct ListCallbacksView<C> {
    pub list_target_id: u64,
    pub list_callbacks: Map<Seq<char>, C>,
    pub item_callbacks: Seq<(VisitId, Map<Seq<char>, C>)>,
}

/// The visit ID (for an item) and the callbacks of the target `t` within
/// the stored list `l`, if `t` belongs to it.
pub open spec fn target_entry<C>(l: ListCallbacksView<C>, t: u64) -> Option<
    (Option<VisitId>, Map<Seq<char>, C>),
> {
    if t == l.list_target_id {
        Some((None, l.list_callbacks))
    } else if l.list_target_id < t && t - l.list_target_id - 1 < l.item_callbacks.len() {
        let (v, c) = l.item_callbacks[t - l.list_target_id - 1];
        Some((Some(v), c))
    } else {
        None
    }
}

/// The largest target ID of a stored list.
pub open spec fn last_target<C>(l: ListCallbacksView<C>) -> int {
    l.list_target_id + l.item_callbacks.len()
}

/// The entry of `t` in the first stored list (oldest first) that has it.
pub open spec fn find_target<C>(lists: Seq<ListCallbacksView<C>>, t: u64) -> Option<
    (Option<VisitId>, Map<Seq<char>, C>),
>
    decreases lists.len(),
{
    if lists.len() == 0 {
        None
    } else {
        match target_entry(lists[0], t) {
            Some(e) => Some(e),
            None => find_target(lists.drop_first(), t),
        }
    }
}

/// The callbacks of the stored list, one for the list and one per item.
pub struct ListCallbacks<C> {
    list_target_id: proto::ActivationTarget,
    list_callbacks: TargetCallbacks<C>,
    item_callbacks: Vec<(VisitId, TargetCallbacks<C>)>,
}

impl<C> View for ListCallbacks<C> {
    type V = ListCallbacksView<C>;

    closed spec fn view(&self) -> ListCallbacksView<C> {
        ListCallbacksView {
            list_target_id: self.list_target_id.0,
            list_callbacks: self.list_callbacks@,
            item_callbacks: self.item_callbacks@.map_values(
                |e: (VisitId, TargetCallbacks<C>)| (e.0, e.1@),
            ),
        }
    }
}

pub open spec fn visit_of(o: Option<&VisitId>) -> Option<VisitId> {
    match o {
        Some(v) => Some(*v),
        None => None,
    }
}

impl<C> ListCallbacks<C> {
    #[verifier::type_invariant]
    spec fn ids_fit(self) -> bool {
        self.list_target_id.0 + self.item_callbacks@.len() < u64::MAX
    }

    /// The visit ID (for an item) and callbacks of `target`, if it belongs
    /// to this list.
    pub fn target_callbacks(&self, target: proto::ActivationTarget) -> (r: Option<
        (Option<&VisitId>, &TargetCallbacks<C>),
    >)
        ensures
            match r {
                Some((v, c)) => target_entry(self@, target.0) == Some((visit_of(v), c@)),
                None => target_entry(self@, target.0) is None,
            },
    {
        proof {
            use_type_invariant(self);
        }
        if target.0 == self.list_target_id.0 {
            Some((None, &self.list_callbacks))
        } else {
            let first_item = self.list_target_id.0 + 1;
            if target.0 < first_item {
                return None;
            }
            let offset = target.0 - first_item;
            if offset >= self.item_callbacks.len() as u64 {
                return None;
            }
            let entry = &self.item_callbacks[offset as usize];
            Some((Some(&entry.0), &entry.1))
        }
    }
}

/// Hands out consecutive IDs.
pub struct AutoIncrementer(pub u64);

impl AutoIncrementer {
    /// Retrieves several consecutive IDs at once.
    pub fn fetch_many(&mut self, count: u64) -> (r: Range<u64>)
        requires
            old(self).0 + count <= u64::MAX,
        ensures
            r.start == old(self).0,
            r.end == old(self).0 + count,
            final(self).0 == r.end,
    {
        let lower_bound = self.0;
        let upper_bound = lower_bound + count;
        self.0 = upper_bound;
        Range { start: lower_bound, end: upper_bound }
    }
}

/// The target IDs of the stored lists are all below `next`, the next one
/// to be handed out, and each list's IDs come after those of the lists
/// stored before it.
pub open spec fn targets_ordered<C>(lists: Seq<ListCallbacksView<C>>, next: u64) -> bool {
    &&& forall|p: int| 0 <= p < lists.len() ==> last_target(#[trigger] lists[p]) < next
    &&& forall|p: int, q: int|
        0 <= p < q < lists.len() ==> last_target(#[trigger] lists[p]) < (#[trigger] lists[q]).list_target_id
}

/// A target of any stored list is found in that list, whatever was stored
/// or forgotten before: the ID ranges of the stored lists do not overlap.
pub proof fn lemma_lookup_kept<C>(lists: Seq<ListCallbacksView<C>>, next: u64, k: int, t: u64)
    requires
        targets_ordered(lists, next),
        0 <= k < lists.len(),
        target_entry(lists[k], t) is Some,
    ensures
        find_target(lists, t) == target_entry(lists[k], t),
{
    assert forall|q: int| 0 <= q < k implies (#[trigger] target_entry(lists[q], t)) is None by {
        assert(last_target(lists[q]) < lists[k].list_target_id);
    }
    lemma_find_target_at(lists, k, t);
}

/// A target ID that was never handed out is found in no stored list.
pub proof fn lemma_lookup_unissued<C>(lists: Seq<ListCallbacksView<C>>, next: u64, t: u64)
    requires
        targets_ordered(lists, next),
        t >= next,
    ensures
        find_target(lists, t) is None,
{
    assert forall|q: int| 0 <= q < lists.len() implies (#[trigger] target_entry(lists[q], t)) is None by {
        assert(last_target(lists[q]) < next);
    }
    lemma_find_target_none(lists, t);
}

/// Within the stored lists, the entry of `t` in list `p`, if the lists
/// before it do not have `t`.
proof fn lemma_find_target_at<C>(lists: Seq<ListCallbacksView<C>>, p: int, t: u64)
    requires
        0 <= p < lists.len(),
        forall|q: int| 0 <= q < p ==> (#[trigger] target_entry(lists[q], t)) is None,
        target_entry(lists[p], t) is Some,
    ensures
        find_target(lists, t) == target_entry(lists[p], t),
    decreases p,
{
    if p > 0 {
        let rest = lists.drop_first();
        assert forall|q: int| 0 <= q < p - 1 implies (#[trigger] target_entry(rest[q], t)) is None by {
            assert(rest[q] == lists[q + 1]);
            assert(target_entry(lists[q + 1], t) is None);
        }
        assert(rest[p - 1] == lists[p]);
        assert(target_entry(lists[0], t) is None);
        lemma_find_target_at(rest, p - 1, t);
    }
}

/// No stored list has `t`.
proof fn lemma_find_target_none<C>(lists: Seq<ListCallbacksView<C>>, t: u64)
    requires
        forall|q: int| 0 <= q < lists.len() ==> (#[trigger] target_entry(lists[q], t)) is None,
    ensures
        find_target(lists, t) is None,
    decreases lists.len(),
{
    if lists.len() > 0 {
        let rest = lists.drop_first();
        assert forall|q: int| 0 <= q < rest.len() implies (#[trigger] target_entry(rest[q], t)) is None by {
            assert(rest[q] == lists[q + 1]);
            assert(target_entry(lists[q + 1], t) is None);
        }
        assert(target_entry(lists[0], t) is None);
        lemma_find_target_none(rest, t);
    }
}

/// The visit ID and callbacks of each item of `items`.
pub open spec fn item_entries<C>(items: Seq<ListItem<C>>) -> Seq<(VisitId, Map<Seq<char>, C>)> {
    items.map_values(|li: ListItem<C>| (li.visit_id, li.callbacks@))
}

pub open spec fn style_spec(style: Option<plugin::ListStyle>) -> Option<proto::ListStyle> {
    match style {
        Some(ls) => Some(plugin::list_style_spec(ls)),
        None => None,
    }
}

pub open spec fn icon_opt_spec(icon: Option<plugin::Icon>) -> Option<proto::ListItemIcon> {
    match icon {
        Some(i) => Some(plugin::icon_spec(i)),
        None => None,
    }
}

/// `item` is the wire form of `li` with target ID `id`.
pub open spec fn item_sent_as<C>(li: ListItem<C>, item: proto::ListItem, id: u64) -> bool {
    &&& item.id == proto::ActivationTarget(id)
    &&& item.title == li.title
    &&& item.description == li.description
    &&& item.icon == match li.icon {
        Some(plugin::Icon::Name(name)) => Some(proto::ListItemIcon::Name(name)),
        Some(plugin::Icon::Text(text)) => Some(proto::ListItemIcon::Text(text)),
        None => None,
    }
    &&& lists_commands_of(item.commands@, li.callbacks@)
}

/// The callbacks of the lists that a plugin has returned, so that the
/// commands covey asks for can be run.
///
/// Target IDs are handed out consecutively: each stored list takes one for
/// itself and one per item, all below the next free ID.
pub struct CommandMap<C> {
    lists: VecDeque<ListCallbacks<C>>,
    target_ids: AutoIncrementer,
}

impl<C> CommandMap<C> {
    /// The stored lists, oldest first.
    pub closed spec fn stored(&self) -> Seq<ListCallbacksView<C>> {
        self.lists@.map_values(|l: ListCallbacks<C>| l@)
    }

    /// The next target ID that will be handed out.
    pub closed spec fn next_id(&self) -> u64 {
        self.target_ids.0
    }

    #[verifier::type_invariant]
    spec fn targets_below_next(self) -> bool {
        &&& forall|p: int| 0 <= p < self.lists@.len() ==> last_target(#[trigger] self.lists@[p]@) < self.target_ids.0
        &&& forall|p: int, q: int|
            0 <= p < q < self.lists@.len() ==> last_target(#[trigger] self.lists@[p]@)
                < (#[trigger] self.lists@[q]@).list_target_id
    }

    proof fn lemma_ordered(&self)
        requires
            self.targets_below_next(),
        ensures
            targets_ordered(self.stored(), self.next_id()),
    {
        assert forall|p: int| 0 <= p < self.stored().len() implies last_target(#[trigger] self.stored()[p])
            < self.next_id() by {
            assert(self.stored()[p] == self.lists@[p]@);
        }
        assert forall|p: int, q: int| 0 <= p < q < self.stored().len() implies last_target(
            #[trigger] self.stored()[p],
        ) < (#[trigger] self.stored()[q]).list_target_id by {
            assert(self.stored()[p] == self.lists@[p]@);
            assert(self.stored()[q] == self.lists@[q]@);
        }
    }

    pub fn new() -> (m: Self)
        ensures
            m.stored() == Seq::<ListCallbacksView<C>>::empty(),
            m.next_id() == 0,
            targets_ordered(m.stored(), m.next_id()),
    {
        let m = CommandMap { lists: VecDeque::new(), target_ids: AutoIncrementer(0) };
        assert(m.stored() =~= Seq::<ListCallbacksView<C>>::empty());
        m
    }

    /// How many target IDs are left to hand out.
    pub fn ids_left(&self) -> (r: u64)
        ensures
            r == u64::MAX - self.next_id(),
    {
        u64::MAX - self.target_ids.0
    }

    /// The number of stored lists.
    pub fn stored_lists(&self) -> (r: usize)
        ensures
            r == self.stored().len(),
    {
        self.lists.len()
    }

    /// Stores the callbacks of the result of a query, returning the list
    /// that should be sent to covey, and whether an older list is stored
    /// too (it should be dropped after a short delay, once covey can no
    /// longer activate its items).
    ///
    /// The list gets the next free target ID and its items the IDs after it.
    pub fn store_query_result(&mut self, list: List<C>) -> (r: (proto::List, bool))
        requires
            old(self).next_id() + list.items@.len() + 1 <= u64::MAX,
        ensures
            ({
                let t0 = old(self).next_id();
                let n = list.items@.len();
                &&& final(self).next_id() == t0 + n + 1
                &&& final(self).stored() == old(self).stored().push(
                    ListCallbacksView {
                        list_target_id: t0,
                        list_callbacks: list.callbacks@,
                        item_callbacks: item_entries(list.items@),
                    },
                )
                &&& r.0.id == proto::ActivationTarget(t0)
                &&& r.0.style == style_spec(list.style)
                &&& r.0.style == match list.style {
                    Some(plugin::ListStyle::Rows) => Some(proto::ListStyle::Rows),
                    Some(plugin::ListStyle::Grid) => Some(proto::ListStyle::Grid),
                    Some(plugin::ListStyle::GridWithColumns(n)) => Some(
                        proto::ListStyle::GridWithColumns(n),
                    ),
                    None => None,
                }
                &&& lists_commands_of(r.0.commands@, list.callbacks@)
                &&& r.0.items@.len() == n
                &&& forall|i: int|
                    0 <= i < n ==> item_sent_as(
                        #[trigger] list.items@[i],
                        r.0.items@[i],
                        (t0 + 1 + i) as u64,
                    )
                &&& r.1 == (final(self).stored().len() >= 2)
                &&& targets_ordered(final(self).stored(), final(self).next_id())
                &&& find_target(final(self).stored(), t0) == Some::<
                    (Option<VisitId>, Map<Seq<char>, C>),
                >((None, list.callbacks@))
                &&& forall|i: int|
                    0 <= i < n ==> find_target(final(self).stored(), (t0 + 1 + i) as u64)
                        == Some::<(Option<VisitId>, Map<Seq<char>, C>)>(
                        (Some((#[trigger] list.items@[i]).visit_id), list.items@[i].callbacks@),
                    )
            }),
    {
        proof {
            use_type_invariant(&*self);
        }
        let ghost old_stored = self.stored();
        let ghost list_items_view = list.items@;
        let ghost list_cbs = list.callbacks@;
        let n = list.items.len();
        let mut counter = AutoIncrementer(self.target_ids.0);
        let ids = counter.fetch_many(n as u64 + 1);
        let t0 = ids.start;
        let list_target_id = proto::ActivationTarget(t0);
        let mut item_callbacks: Vec<(VisitId, TargetCallbacks<C>)> = Vec::new();
        let mut items: Vec<proto::ListItem> = Vec::new();
        let List { items: list_items, style, callbacks } = list;
        let mut next_item_id: u64 = t0 + 1;
        for li in it: list_items
            invariant
                it.seq() == list_items_view,
                n == list_items_view.len(),
                t0 + n + 1 <= u64::MAX,
                items@.len() == it.index(),
                next_item_id == t0 + 1 + it.index(),
                item_callbacks@.len() == it.index(),
                forall|i: int|
                    0 <= i < it.index() ==> item_sent_as(
                        #[trigger] list_items_view[i],
                        items@[i],
                        (t0 + 1 + i) as u64,
                    ),
                forall|i: int|
                    0 <= i < it.index() ==> (#[trigger] item_callbacks@[i]).0 == list_items_view[i].visit_id
                        && item_callbacks@[i].1@ == list_items_view[i].callbacks@,
        {
            let ghost idx = it.index() as int;
            let ListItem { title, description, icon, visit_id, callbacks } = li;
            let id = proto::ActivationTarget(next_item_id);
            next_item_id = next_item_id + 1;
            let commands = callbacks.ids();
            item_callbacks.push((visit_id, callbacks));
            let icon = match icon {
                Some(i) => Some(plugin::icon(i)),
                None => None,
            };
            items.push(proto::ListItem { id, title, description, icon, commands });
            proof {
                assert(list_items_view[idx] == li);
            }
        }
        let list_command_ids = callbacks.ids();
        let stored = ListCallbacks { list_target_id, list_callbacks: callbacks, item_callbacks };
        let ghost new_view = stored@;
        assert(new_view.item_callbacks =~= item_entries(list_items_view));
        let mut lists = VecDeque::new();
        core::mem::swap(&mut lists, &mut self.lists);
        lists.push_back(stored);
        let num_lists = lists.len();
        self.target_ids = counter;
        proof {
            assert forall|p: int| 0 <= p < lists@.len() implies last_target(#[trigger] lists@[p]@) < self.target_ids.0 by {
                if p < old(self).lists@.len() {
                    assert(lists@[p] == old(self).lists@[p]);
                }
            }
            assert forall|p: int, q: int| 0 <= p < q < lists@.len() implies last_target(
                #[trigger] lists@[p]@,
            ) < (#[trigger] lists@[q]@).list_target_id by {
                assert(lists@[p] == old(self).lists@[p]);
                if q < old(self).lists@.len() {
                    assert(lists@[q] == old(self).lists@[q]);
                } else {
                    assert(lists@[q]@ == new_view);
                }
            }
        }
        self.lists = lists;
        let style = match style {
            Some(ls) => Some(plugin::list_style(ls)),
            None => None,
        };
        proof {
            let fin = self.stored();
            assert(fin =~= old_stored.push(new_view));
            assert forall|p: int| 0 <= p < old_stored.len() implies last_target(#[trigger] old_stored[p]) < t0 by {
                assert(old_stored[p] == old(self).lists@[p]@);
            }
            assert(target_entry(new_view, t0) is Some);
            assert forall|q: int| 0 <= q < old_stored.len() implies (#[trigger] target_entry(fin[q], t0)) is None by {
                assert(fin[q] == old_stored[q]);
                assert(last_target(old_stored[q]) < t0);
            }
            lemma_find_target_at(fin, old_stored.len() as int, t0);
            assert forall|i: int| 0 <= i < n implies find_target(fin, (t0 + 1 + i) as u64)
                == Some::<(Option<VisitId>, Map<Seq<char>, C>)>(
                (Some((#[trigger] list_items_view[i]).visit_id), list_items_view[i].callbacks@),
            ) by {
                let t = (t0 + 1 + i) as u64;
                assert forall|q: int| 0 <= q < old_stored.len() implies (#[trigger] target_entry(fin[q], t)) is None by {
                    assert(fin[q] == old_stored[q]);
                    assert(last_target(old_stored[q]) < t0);
                }
                assert(new_view.item_callbacks[i] == (list_items_view[i].visit_id, list_items_view[i].callbacks@));
                lemma_find_target_at(fin, old_stored.len() as int, t);
            }
        }
        proof {
            use_type_invariant(&*self);
            self.lemma_ordered();
        }
        (proto::List { items, style, id: list_target_id, commands: list_command_ids }, num_lists >= 2)
    }

    /// Drops the oldest stored list, if any.
    pub fn forget_oldest(&mut self)
        ensures
            final(self).next_id() == old(self).next_id(),
            old(self).stored().len() > 0 ==> final(self).stored() == old(self).stored().drop_first(),
            old(self).stored().len() == 0 ==> final(self).stored() == old(self).stored(),
            targets_ordered(final(self).stored(), final(self).next_id()),
    {
        proof {
            use_type_invariant(&*self);
        }
        let mut lists = VecDeque::new();
        core::mem::swap(&mut lists, &mut self.lists);
        let ghost before = lists@;
        let _ = lists.pop_front();
        proof {
            if before.len() > 0 {
                assert(lists@ == before.drop_first());
                assert forall|p: int| 0 <= p < lists@.len() implies last_target(#[trigger] lists@[p]@)
                    < self.target_ids.0 by {
                    assert(lists@[p] == before[p + 1]);
                }
                assert forall|p: int, q: int| 0 <= p < q < lists@.len() implies last_target(
                    #[trigger] lists@[p]@,
                ) < (#[trigger] lists@[q]@).list_target_id by {
                    assert(lists@[p] == before[p + 1]);
                    assert(lists@[q] == before[q + 1]);
                }
            }
        }
        self.lists = lists;
        proof {
            assert(self.stored() =~= (if old(self).stored().len() > 0 {
                old(self).stored().drop_first()
            } else {
                old(self).stored()
            }));
            use_type_invariant(&*self);
            self.lemma_ordered();
        }
    }

    /// Finds the callback of a command on a target, looking in the stored
    /// lists from oldest to newest; also gives the item's visit ID when the
    /// target is an item.
    ///
    /// Only the first list that has the target is looked at.
    pub fn find_callback(
        &self,
        target_id: proto::ActivationTarget,
        command_id: &CommandId,
    ) -> (r: Option<(Option<&VisitId>, &C)>)
        ensures
            match find_target(self.stored(), target_id.0) {
                None => r is None,
                Some((v, m)) => match r {
                    None => !m.contains_key(command_id@),
                    Some((rv, c)) => visit_of(rv) == v && m.contains_key(command_id@) && *c
                        == m[command_id@],
                },
            },
            target_id.0 >= self.next_id() ==> r is None,
    {
        proof {
            use_type_invariant(self);
            if target_id.0 >= self.next_id() {
                assert forall|q: int| 0 <= q < self.stored().len() implies (#[trigger] target_entry(
                    self.stored()[q],
                    target_id.0,
                )) is None by {
                    assert(self.stored()[q] == self.lists@[q]@);
                    assert(last_target(self.lists@[q]@) < self.target_ids.0);
                }
                lemma_find_target_none(self.stored(), target_id.0);
            }
        }
        let ghost stored = self.stored();
        let mut p: usize = 0;
        while p < self.lists.len()
            invariant
                stored == self.stored(),
                p <= stored.len(),
                target_id.0 >= self.next_id() ==> find_target(stored, target_id.0) is None,
                forall|q: int| 0 <= q < p ==> (#[trigger] target_entry(stored[q], target_id.0)) is None,
            decreases stored.len() - p,
        {
            assert(stored[p as int] == self.lists@[p as int]@);
            match self.lists[p].target_callbacks(target_id) {
                Some((visit_id, callbacks)) => {
                    proof {
                        lemma_find_target_at(stored, p as int, target_id.0);
                    }
                    return match callbacks.get_callback(command_id) {
                        Some(c) => Some((visit_id, c)),
                        None => None,
                    };
                },
                None => {},
            }
            p = p + 1;
        }
        proof {
            lemma_find_target_none(stored, target_id.0);
        }
        None
    }
}

} // verus!
