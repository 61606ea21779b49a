//! An ordered map kept as a list of items with unique keys.

use vstd::prelude::*;
use vstd::std_specs::iter::IteratorSpec;

use crate::id::StringId;
use crate::text::{debug_quoted, debug_str, str_eq};

verus! {

/// A type that has a unique key.
pub trait Identify {
    type Id: StringId;

    /// The ID of this value.
    spec fn spec_id(&self) -> Self::Id;

    fn id(&self) -> (r: &Self::Id)
        ensures
            *r == self.spec_id(),
    ;
}

/// The characters of the key of `t`.
pub open spec fn key_of<T: Identify>(t: T) -> Seq<char> {
    t.spec_id().text()
}

/// No two items of `s` have the same key.
pub open spec fn keys_unique<T: Identify>(s: Seq<T>) -> bool {
    forall|i: int, j: int| 0 <= i < j < s.len() ==> key_of(s[i]) != key_of(s[j])
}

/// Some item of `s` has the key `k`.
pub open spec fn has_key<T: Identify>(s: Seq<T>, k: Seq<char>) -> bool {
    exists|i: int| 0 <= i < s.len() && key_of(#[trigger] s[i]) == k
}

/// An item before position `j` of `s` has the same key as the item at `j`.
pub open spec fn repeats_earlier_key<T: Identify>(s: Seq<T>, j: int) -> bool {
    has_key(s.take(j), key_of(s[j]))
}

/// `j` is the first position of `s` whose key repeats an earlier key.
pub open spec fn is_first_duplicate<T: Identify>(s: Seq<T>, j: int) -> bool {
    &&& 0 <= j < s.len()
    &&& repeats_earlier_key(s, j)
    &&& forall|k: int| 0 <= k < j ==> !repeats_earlier_key(s, k)
}

/// `base` followed by the items of `extra` whose key is not yet present,
/// each considered in order.
pub open spec fn extend_keeping_first<T: Identify>(base: Seq<T>, extra: Seq<T>) -> Seq<T>
    decreases extra.len(),
{
    if extra.len() == 0 {
        base
    } else {
        let before = extend_keeping_first(base, extra.drop_last());
        if has_key(before, key_of(extra.last())) {
            before
        } else {
            before.push(extra.last())
        }
    }
}

/// A list of items with unique keys.
///
/// The items implement the [`Identify`] trait, whose ID should be unique
/// across all items in this list.
#[derive(Debug)]
pub struct KeyedList<T: Identify> {
    items: Vec<T>,
}

impl<T: Identify> View for KeyedList<T> {
    type V = Seq<T>;

    closed spec fn view(&self) -> Seq<T> {
        self.items@
    }
}

/// The error of building a keyed list from items of which two share an ID.
#[derive(Debug, Clone)]
pub struct UniqueIdError<Id> {
    duplicate: Id,
}

impl<Id> UniqueIdError<Id> {
    /// The ID that occurs more than once.
    pub closed spec fn duplicate(&self) -> Id {
        self.duplicate
    }
}

impl<Id: StringId> UniqueIdError<Id> {
    /// The message of this error.
    pub fn to_string(&self) -> (r: String)
        ensures
            r@ == "id "@ + debug_quoted(self.duplicate().text()) + " is duplicated"@,
    {
        let mut s = "id ".to_owned();
        s.append(debug_str(self.duplicate.as_str()).as_str());
        s.append(" is duplicated");
        s
    }
}

proof fn lemma_has_key_push<T: Identify>(s: Seq<T>, t: T, k: Seq<char>)
    ensures
        has_key(s.push(t), k) == (has_key(s, k) || key_of(t) == k),
{
    if has_key(s, k) {
        let i = choose|i: int| 0 <= i < s.len() && key_of(#[trigger] s[i]) == k;
        assert(s.push(t)[i] == s[i]);
    }
    if key_of(t) == k {
        assert(s.push(t)[s.len() as int] == t);
    }
    if has_key(s.push(t), k) {
        let i = choose|i: int| 0 <= i < s.push(t).len() && key_of(#[trigger] s.push(t)[i]) == k;
        if i < s.len() {
            assert(s.push(t)[i] == s[i]);
        }
    }
}

/// Extending keeps every item of the base, in order, at the front; the
/// result has unique keys if the base does; and its keys are those of the
/// base and of the extra items.
pub proof fn lemma_extend_keeping_first<T: Identify>(base: Seq<T>, extra: Seq<T>)
    ensures
        extend_keeping_first(base, extra).len() >= base.len(),
        extend_keeping_first(base, extra).take(base.len() as int) == base,
        keys_unique(base) ==> keys_unique(extend_keeping_first(base, extra)),
        forall|k: Seq<char>|
            has_key(extend_keeping_first(base, extra), k) == (has_key(base, k) || has_key(
                extra,
                k,
            )),
    decreases extra.len(),
{
    if extra.len() == 0 {
        assert(base.take(base.len() as int) =~= base);
        assert forall|k: Seq<char>| !has_key(extra, k) by {}
    } else {
        let before = extend_keeping_first(base, extra.drop_last());
        lemma_extend_keeping_first(base, extra.drop_last());
        let t = extra.last();
        assert forall|k: Seq<char>| has_key(extra, k) == (has_key(extra.drop_last(), k)
            || key_of(t) == k) by {
            lemma_has_key_push(extra.drop_last(), t, k);
            assert(extra.drop_last().push(t) =~= extra);
        }
        if !has_key(before, key_of(t)) {
            assert(before.push(t).take(base.len() as int) =~= before.take(base.len() as int));
            assert forall|k: Seq<char>| has_key(before.push(t), k) == (has_key(before, k)
                || key_of(t) == k) by {
                lemma_has_key_push(before, t, k);
            }
            if keys_unique(base) {
                assert forall|i: int, j: int|
                    0 <= i < j < before.push(t).len() implies key_of(before.push(t)[i]) != key_of(
                    before.push(t)[j],
                ) by {
                    if j == before.len() {
                        assert(before.push(t)[i] == before[i]);
                    } else {
                        assert(before.push(t)[i] == before[i]);
                        assert(before.push(t)[j] == before[j]);
                    }
                }
            }
        }
    }
}

proof fn lemma_take_push<T>(s: Seq<T>, i: int)
    requires
        0 <= i < s.len(),
    ensures
        s.take(i + 1) == s.take(i).push(s[i]),
        s.take(i + 1).drop_last() == s.take(i),
        s.take(i + 1).last() == s[i],
{
    assert(s.take(i + 1) =~= s.take(i).push(s[i]));
    assert(s.take(i + 1).drop_last() =~= s.take(i));
}

/// The items of `s` are unique-keyed exactly when no position repeats an
/// earlier key.
proof fn lemma_unique_iff_no_repeat<T: Identify>(s: Seq<T>)
    ensures
        keys_unique(s) == (forall|j: int| 0 <= j < s.len() ==> !repeats_earlier_key(s, j)),
{
    if keys_unique(s) {
        assert forall|j: int| 0 <= j < s.len() implies !repeats_earlier_key(s, j) by {
            if repeats_earlier_key(s, j) {
                let i = choose|i: int|
                    0 <= i < s.take(j).len() && key_of(#[trigger] s.take(j)[i]) == key_of(s[j]);
                assert(s.take(j)[i] == s[i]);
            }
        }
    }
    if forall|j: int| 0 <= j < s.len() ==> !repeats_earlier_key(s, j) {
        assert forall|i: int, j: int| 0 <= i < j < s.len() implies key_of(s[i]) != key_of(
            s[j],
        ) by {
            assert(!repeats_earlier_key(s, j));
            assert(s.take(j)[i] == s[i]);
        }
    }
}

/// Scans `items` from the front for an item whose key is `key`.
fn position_of_key<T: Identify>(items: &Vec<T>, key: &str) -> (r: Option<usize>)
    ensures
        match r {
            Some(i) => i < items@.len() && key_of(items@[i as int]) == key@ && forall|j: int|
                0 <= j < i ==> key_of(#[trigger] items@[j]) != key@,
            None => !has_key(items@, key@),
        },
{
    let mut i: usize = 0;
    while i < items.len()
        invariant
            i <= items@.len(),
            forall|j: int| 0 <= j < i ==> key_of(#[trigger] items@[j]) != key@,
        decreases items@.len() - i,
    {
        let id = items[i].id();
        if str_eq(id.as_str(), key) {
            return Some(i);
        }
        i = i + 1;
    }
    None
}

impl<T: Identify> KeyedList<T> {
    #[verifier::type_invariant]
    spec fn unique_keys(self) -> bool {
        keys_unique(self.items@)
    }

    /// Constructs a keyed list with unique ids.
    ///
    /// # Errors
    /// Errors if multiple values have the same id; the error holds a clone of
    /// the id of the first item that repeats an earlier id.
    pub fn new(items: Vec<T>) -> (r: Result<Self, UniqueIdError<T::Id>>)
        ensures
            r is Ok <==> keys_unique(items@),
            r matches Ok(l) ==> l@ == items@,
            r matches Err(e) ==> exists|j: int|
                is_first_duplicate(items@, j) && cloned(items@[j].spec_id(), e.duplicate()),
    {
        let ghost all = items@;
        let mut checked: Vec<T> = Vec::new();
        for t in it: items
            invariant
                it.seq() == all,
                checked@ == all.take(it.index() as int),
                forall|k: int| 0 <= k < it.index() ==> !repeats_earlier_key(all, k),
        {
            let ghost j = it.index() as int;
            proof {
                lemma_take_push(all, j);
            }
            match position_of_key(&checked, t.id().as_str()) {
                Some(_) => {
                    let duplicate = t.id().clone();
                    proof {
                        lemma_unique_iff_no_repeat(all);
                        assert(t == all[j]);
                        assert(repeats_earlier_key(all, j));
                        assert(is_first_duplicate(all, j));
                        assert(cloned(all[j].spec_id(), duplicate));
                    }
                    return Err(UniqueIdError { duplicate });
                },
                None => {
                    checked.push(t);
                },
            }
        }
        proof {
            lemma_unique_iff_no_repeat(all);
            assert(all.take(all.len() as int) =~= all);
        }
        Ok(KeyedList { items: checked })
    }
}

/// Pushes onto `kept` the items of `items` whose key is not yet present.
fn push_new_keys<T: Identify>(kept: &mut Vec<T>, items: Vec<T>)
    requires
        keys_unique(old(kept)@),
    ensures
        final(kept)@ == extend_keeping_first(old(kept)@, items@),
        keys_unique(final(kept)@),
{
    let ghost base = kept@;
    let ghost all = items@;
    proof {
        assert(all.take(0) =~= Seq::<T>::empty());
        lemma_extend_keeping_first(base, all.take(0));
    }
    for t in it: items
        invariant
            it.seq() == all,
            kept@ == extend_keeping_first(base, all.take(it.index() as int)),
            keys_unique(kept@),
            keys_unique(base),
    {
        let ghost j = it.index() as int;
        proof {
            lemma_take_push(all, j);
            lemma_extend_keeping_first(base, all.take(j + 1));
        }
        match position_of_key(kept, t.id().as_str()) {
            Some(_) => {},
            None => {
                kept.push(t);
            },
        }
    }
    proof {
        assert(all.take(all.len() as int) =~= all);
    }
}

impl<T: Identify> KeyedList<T> {
    /// Constructs a keyed list with unique ids, dropping subsequent items
    /// if they have the same id as a previous item.
    pub fn new_lossy(items: Vec<T>) -> (l: Self)
        ensures
            l@ == extend_keeping_first(Seq::empty(), items@),
            keys_unique(l@),
    {
        let mut kept: Vec<T> = Vec::new();
        push_new_keys(&mut kept, items);
        KeyedList { items: kept }
    }

    /// Gets the item with the given id.
    pub fn get(&self, id: &T::Id) -> (r: Option<&T>)
        ensures
            match r {
                Some(t) => exists|i: int|
                    0 <= i < self@.len() && self@[i] == *t && key_of(self@[i]) == id.text(),
                None => !has_key(self@, id.text()),
            },
    {
        match position_of_key(&self.items, id.as_str()) {
            Some(i) => {
                let t = &self.items[i];
                assert(self@[i as int] == *t);
                Some(t)
            },
            None => None,
        }
    }

    /// Whether an item has the given id.
    pub fn contains(&self, id: &T::Id) -> (b: bool)
        ensures
            b == has_key(self@, id.text()),
    {
        position_of_key(&self.items, id.as_str()).is_some()
    }

    /// Extends this keyed list with extra items, ignoring items
    /// with ids that already exist in this list or in the extra items
    /// before them.
    pub fn extend_lossy(&mut self, items: Vec<T>)
        ensures
            final(self)@ == extend_keeping_first(old(self)@, items@),
            keys_unique(final(self)@),
    {
        proof {
            use_type_invariant(&*self);
        }
        let mut kept = Vec::new();
        core::mem::swap(&mut kept, &mut self.items);
        push_new_keys(&mut kept, items);
        self.items = kept;
    }

    /// The items in order.
    pub fn as_slice(&self) -> (r: &[T])
        ensures
            r@ == self@,
            keys_unique(r@),
    {
        proof {
            use_type_invariant(self);
        }
        self.items.as_slice()
    }

    /// Iterates over the items in order.
    pub fn iter(&self) -> (it: core::slice::Iter<'_, T>)
        ensures
            it.remaining() == self@.as_ref(),
    {
        self.items.as_slice().iter()
    }

    /// The number of items.
    pub fn len(&self) -> (n: usize)
        ensures
            n == self@.len(),
    {
        self.items.len()
    }

    /// Takes the items out of the list, in order.
    pub fn into_vec(self) -> (v: Vec<T>)
        ensures
            v@ == self@,
    {
        self.items
    }
}

impl<T: Identify> Default for KeyedList<T> {
    fn default() -> (l: Self)
        ensures
            l@ == Seq::<T>::empty(),
    {
        KeyedList { items: Vec::new() }
    }
}

/// Dropping repeated keys from items whose keys are already unique drops
/// nothing: the lossy constructor then agrees with the strict one.
pub proof fn lemma_lossy_keeps_unique<T: Identify>(s: Seq<T>)
    requires
        keys_unique(s),
    ensures
        extend_keeping_first(Seq::empty(), s) == s,
    decreases s.len(),
{
    if s.len() > 0 {
        let init = s.drop_last();
        assert(keys_unique(init));
        lemma_lossy_keeps_unique(init);
        if has_key(init, key_of(s.last())) {
            let i = choose|i: int| 0 <= i < init.len() && key_of(#[trigger] init[i]) == key_of(
                s.last(),
            );
            assert(s[i] == init[i]);
        }
        assert(init.push(s.last()) =~= s);
    }
}

/// Keeping the first item of each key gives unique keys and keeps every key
/// that occurs.
pub proof fn lemma_lossy_keys<T: Identify>(s: Seq<T>)
    ensures
        keys_unique(extend_keeping_first(Seq::empty(), s)),
        forall|k: Seq<char>| has_key(extend_keeping_first(Seq::empty(), s), k) == has_key(s, k),
{
    lemma_extend_keeping_first(Seq::<T>::empty(), s);
    assert forall|k: Seq<char>| !has_key(Seq::<T>::empty(), k) by {}
}

/// In a list with unique keys, a key names at most one position.
pub proof fn lemma_unique_key_position<T: Identify>(s: Seq<T>, i: int, j: int)
    requires
        keys_unique(s),
        0 <= i < s.len(),
        0 <= j < s.len(),
        key_of(s[i]) == key_of(s[j]),
    ensures
        i == j,
{
}

} // verus!
