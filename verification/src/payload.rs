//! From the changes of a drive to the folders that the scanner has to look at.

use vstd::prelude::*;
use vstd::std_specs::cmp::PartialEqSpecImpl;
use crate::changes::{events_of, reported_deletion, target, ChangeEvent, ChangedPath};
use crate::path::{
    ends_tidily, has_component, lemma_parent_is_prefix, lemma_parent_loses_one_component,
};
use crate::text::texts;

verus! {

/// The folders that a batch of changes touches: those with something new in
/// them and those with something gone. A folder may be in both.
pub struct ChangeSet {
    pub created: Set<Seq<char>>,
    pub deleted: Set<Seq<char>>,
}

impl ChangeSet {
    /// The change set of a drive on which nothing happened.
    pub open spec fn empty() -> ChangeSet {
        ChangeSet { created: Set::empty(), deleted: Set::empty() }
    }

    /// Whether no folder is touched.
    pub open spec fn is_empty(self) -> bool {
        self.created == Set::<Seq<char>>::empty() && self.deleted == Set::<Seq<char>>::empty()
    }
}

/// The folders touched by `events`.
pub open spec fn reduce(events: Seq<ChangeEvent>) -> ChangeSet {
    ChangeSet {
        created: Set::new(
            |folder: Seq<char>|
                exists|i: int|
                    0 <= i < events.len() && (#[trigger] events[i]).created && target(events[i])
                        == folder,
        ),
        deleted: Set::new(
            |folder: Seq<char>|
                exists|i: int|
                    0 <= i < events.len() && reported_deletion(#[trigger] events[i]) && target(
                        events[i],
                    ) == folder,
        ),
    }
}

/// The change set after one more event.
pub open spec fn record(set: ChangeSet, event: ChangeEvent) -> ChangeSet {
    if event.created {
        ChangeSet { created: set.created.insert(target(event)), deleted: set.deleted }
    } else if reported_deletion(event) {
        ChangeSet { created: set.created, deleted: set.deleted.insert(target(event)) }
    } else {
        set
    }
}

/// Reducing a batch with one more event at its end records that event in the
/// reduction of the batch.
pub proof fn lemma_reduce_push(events: Seq<ChangeEvent>, event: ChangeEvent)
    ensures
        reduce(events.push(event)) == record(reduce(events), event),
{
    let longer = events.push(event);
    let before = reduce(events);
    let after = reduce(longer);
    let expected = record(before, event);
    assert forall|folder: Seq<char>| after.created.contains(folder) implies expected.created.contains(
        folder,
    ) by {
        let i = choose|i: int|
            0 <= i < longer.len() && (#[trigger] longer[i]).created && target(longer[i]) == folder;
        if i < events.len() {
            assert(events[i] == longer[i]);
        }
    }
    assert forall|folder: Seq<char>| expected.created.contains(folder) implies after.created.contains(
        folder,
    ) by {
        if before.created.contains(folder) {
            let i = choose|i: int|
                0 <= i < events.len() && (#[trigger] events[i]).created && target(events[i])
                    == folder;
            assert(longer[i] == events[i]);
        } else {
            assert(longer[events.len() as int] == event);
        }
    }
    assert forall|folder: Seq<char>| after.deleted.contains(folder) implies expected.deleted.contains(
        folder,
    ) by {
        let i = choose|i: int|
            0 <= i < longer.len() && reported_deletion(#[trigger] longer[i]) && target(longer[i])
                == folder;
        if i < events.len() {
            assert(events[i] == longer[i]);
        }
    }
    assert forall|folder: Seq<char>| expected.deleted.contains(folder) implies after.deleted.contains(
        folder,
    ) by {
        if before.deleted.contains(folder) {
            let i = choose|i: int|
                0 <= i < events.len() && reported_deletion(#[trigger] events[i]) && target(
                    events[i],
                ) == folder;
            assert(longer[i] == events[i]);
        } else {
            assert(longer[events.len() as int] == event);
        }
    }
    assert(after.created =~= expected.created);
    assert(after.deleted =~= expected.deleted);
}

/// A batch without events touches no folder.
pub proof fn lemma_reduce_nothing()
    ensures
        reduce(Seq::empty()) == ChangeSet::empty(),
        reduce(Seq::empty()).is_empty(),
{
    assert(reduce(Seq::empty()).created =~= Set::empty());
    assert(reduce(Seq::empty()).deleted =~= Set::empty());
}

/// Whatever a reduced batch holds is the target of one of its events, in the
/// bucket of that event. The target of a file is its path cut short: where
/// the path has a last component to lose, it is never the path itself but
/// the path of a folder.
pub proof fn lemma_entries_are_folders(events: Seq<ChangeEvent>)
    ensures
        forall|folder: Seq<char>| #[trigger]
            reduce(events).created.contains(folder) ==> exists|i: int|
                0 <= i < events.len() && (#[trigger] events[i]).created && target(events[i])
                    == folder,
        forall|folder: Seq<char>| #[trigger]
            reduce(events).deleted.contains(folder) ==> exists|i: int|
                0 <= i < events.len() && reported_deletion(#[trigger] events[i]) && target(
                    events[i],
                ) == folder,
        forall|i: int|
            0 <= i < events.len() && !(#[trigger] events[i]).folder ==> {
                &&& target(events[i]).is_prefix_of(events[i].path)
                &&& has_component(events[i].path) ==> {
                    &&& target(events[i]).len() < events[i].path.len()
                    &&& ends_tidily(target(events[i]))
                }
            },
{
    assert forall|i: int| 0 <= i < events.len() && !(#[trigger] events[i]).folder implies {
        &&& target(events[i]).is_prefix_of(events[i].path)
        &&& has_component(events[i].path) ==> {
            &&& target(events[i]).len() < events[i].path.len()
            &&& ends_tidily(target(events[i]))
        }
    } by {
        lemma_parent_is_prefix(events[i].path);
        if has_component(events[i].path) {
            lemma_parent_loses_one_component(events[i].path);
        }
    }
}

/// The removal of an item that was already in the trash leaves no trace:
/// a batch with such an event touches the folders that it touches without it.
pub proof fn lemma_trashed_deletion_is_dropped(events: Seq<ChangeEvent>, k: int)
    requires
        0 <= k < events.len(),
        !events[k].created,
        events[k].trashed,
    ensures
        reduce(events.remove(k)) == reduce(events),
{
    let fewer = events.remove(k);
    assert forall|folder: Seq<char>| reduce(events).created.contains(folder) implies reduce(
        fewer,
    ).created.contains(folder) by {
        let i = choose|i: int|
            0 <= i < events.len() && (#[trigger] events[i]).created && target(events[i]) == folder;
        let j = if i < k { i } else { i - 1 };
        assert(fewer[j] == events[i]);
    }
    assert forall|folder: Seq<char>| reduce(fewer).created.contains(folder) implies reduce(
        events,
    ).created.contains(folder) by {
        let j = choose|j: int|
            0 <= j < fewer.len() && (#[trigger] fewer[j]).created && target(fewer[j]) == folder;
        let i = if j < k { j } else { j + 1 };
        assert(fewer[j] == events[i]);
    }
    assert forall|folder: Seq<char>| reduce(events).deleted.contains(folder) implies reduce(
        fewer,
    ).deleted.contains(folder) by {
        let i = choose|i: int|
            0 <= i < events.len() && reported_deletion(#[trigger] events[i]) && target(events[i])
                == folder;
        let j = if i < k { i } else { i - 1 };
        assert(fewer[j] == events[i]);
    }
    assert forall|folder: Seq<char>| reduce(fewer).deleted.contains(folder) implies reduce(
        events,
    ).deleted.contains(folder) by {
        let j = choose|j: int|
            0 <= j < fewer.len() && reported_deletion(#[trigger] fewer[j]) && target(fewer[j])
                == folder;
        let i = if j < k { j } else { j + 1 };
        assert(fewer[j] == events[i]);
    }
    assert(reduce(fewer).created =~= reduce(events).created);
    assert(reduce(fewer).deleted =~= reduce(events).deleted);
}

/// Folders are kept once: an event that points where an earlier event of the
/// same bucket pointed adds nothing.
pub proof fn lemma_duplicates_collapse(events: Seq<ChangeEvent>, k: int, event: ChangeEvent)
    requires
        0 <= k < events.len(),
        events[k].created == event.created,
        reported_deletion(events[k]) == reported_deletion(event),
        target(events[k]) == target(event),
    ensures
        reduce(events.push(event)) == reduce(events),
{
    lemma_reduce_push(events, event);
    if event.created {
        assert(reduce(events).created.contains(target(events[k])));
        assert(reduce(events).created.insert(target(event)) =~= reduce(events).created);
    } else if reported_deletion(event) {
        assert(reduce(events).deleted.contains(target(events[k])));
        assert(reduce(events).deleted.insert(target(event)) =~= reduce(events).deleted);
    }
}

/// A batch in two parts touches what its parts touch, so that the order of
/// the events plays no part.
pub proof fn lemma_reduce_concat(first: Seq<ChangeEvent>, second: Seq<ChangeEvent>)
    ensures
        reduce(first + second).created == reduce(first).created.union(reduce(second).created),
        reduce(first + second).deleted == reduce(first).deleted.union(reduce(second).deleted),
        reduce(first + second) == reduce(second + first),
{
    lemma_reduce_parts(first, second);
    lemma_reduce_parts(second, first);
    assert(reduce(first + second).created =~= reduce(second + first).created);
    assert(reduce(first + second).deleted =~= reduce(second + first).deleted);
}

/// A batch in two parts touches what its parts touch.
proof fn lemma_reduce_parts(first: Seq<ChangeEvent>, second: Seq<ChangeEvent>)
    ensures
        reduce(first + second).created == reduce(first).created.union(reduce(second).created),
        reduce(first + second).deleted == reduce(first).deleted.union(reduce(second).deleted),
{
    let both = first + second;
    assert forall|folder: Seq<char>| reduce(both).created.contains(folder) implies reduce(
        first,
    ).created.union(reduce(second).created).contains(folder) by {
        let i = choose|i: int|
            0 <= i < both.len() && (#[trigger] both[i]).created && target(both[i]) == folder;
        if i < first.len() {
            assert(first[i] == both[i]);
        } else {
            assert(second[i - first.len()] == both[i]);
        }
    }
    assert forall|folder: Seq<char>|
        reduce(first).created.union(reduce(second).created).contains(folder) implies reduce(
        both,
    ).created.contains(folder) by {
        if reduce(first).created.contains(folder) {
            let i = choose|i: int|
                0 <= i < first.len() && (#[trigger] first[i]).created && target(first[i])
                    == folder;
            assert(both[i] == first[i]);
        } else {
            let i = choose|i: int|
                0 <= i < second.len() && (#[trigger] second[i]).created && target(second[i])
                    == folder;
            assert(both[first.len() + i] == second[i]);
        }
    }
    assert forall|folder: Seq<char>| reduce(both).deleted.contains(folder) implies reduce(
        first,
    ).deleted.union(reduce(second).deleted).contains(folder) by {
        let i = choose|i: int|
            0 <= i < both.len() && reported_deletion(#[trigger] both[i]) && target(both[i])
                == folder;
        if i < first.len() {
            assert(first[i] == both[i]);
        } else {
            assert(second[i - first.len()] == both[i]);
        }
    }
    assert forall|folder: Seq<char>|
        reduce(first).deleted.union(reduce(second).deleted).contains(folder) implies reduce(
        both,
    ).deleted.contains(folder) by {
        if reduce(first).deleted.contains(folder) {
            let i = choose|i: int|
                0 <= i < first.len() && reported_deletion(#[trigger] first[i]) && target(first[i])
                    == folder;
            assert(both[i] == first[i]);
        } else {
            let i = choose|i: int|
                0 <= i < second.len() && reported_deletion(#[trigger] second[i]) && target(
                    second[i],
                ) == folder;
            assert(both[first.len() + i] == second[i]);
        }
    }
    assert(reduce(both).created =~= reduce(first).created.union(reduce(second).created));
    assert(reduce(both).deleted =~= reduce(first).deleted.union(reduce(second).deleted));
}

/// Tells whether `list` holds `text`.
fn holds(list: &Vec<String>, text: &String) -> (found: bool)
    ensures
        found == texts(list@).contains(text@),
{
    let mut i: usize = 0;
    while i < list.len()
        invariant
            i <= list.len(),
            forall|j: int| 0 <= j < i ==> #[trigger] texts(list@)[j] != text@,
        decreases list.len() - i,
    {
        if list[i] == *text {
            assert(texts(list@)[i as int] == text@);
            return true;
        }
        i += 1;
    }
    false
}

/// Adds `text` to `list` unless the list holds it already.
fn insert(list: &mut Vec<String>, text: String)
    requires
        texts(old(list)@).no_duplicates(),
    ensures
        texts(final(list)@).no_duplicates(),
        texts(final(list)@).to_set() == texts(old(list)@).to_set().insert(text@),
{
    if holds(list, &text) {
        assert(texts(list@).to_set().insert(text@) =~= texts(list@).to_set());
    } else {
        let ghost before = texts(list@);
        list.push(text);
        proof {
            assert(texts(list@) =~= before.push(text@));
            before.lemma_push_to_set_commute(text@);
        }
    }
}

/// Tells whether `list` holds every text of `other`.
fn covers(list: &Vec<String>, other: &Vec<String>) -> (all: bool)
    ensures
        all == texts(other@).to_set().subset_of(texts(list@).to_set()),
{
    let mut i: usize = 0;
    while i < other.len()
        invariant
            i <= other.len(),
            forall|j: int| 0 <= j < i ==> texts(list@).contains(#[trigger] texts(other@)[j]),
        decreases other.len() - i,
    {
        if !holds(list, &other[i]) {
            assert(texts(other@).to_set().contains(texts(other@)[i as int]));
            return false;
        }
        i += 1;
    }
    true
}

/// What the scanner is sent about one drive: the folders to look at, each of
/// them once.
#[derive(Debug)]
pub struct Payload {
    created: Vec<String>,
    deleted: Vec<String>,
}

impl View for Payload {
    type V = ChangeSet;

    closed spec fn view(&self) -> ChangeSet {
        ChangeSet {
            created: texts(self.created@).to_set(),
            deleted: texts(self.deleted@).to_set(),
        }
    }
}

impl Payload {
    #[verifier::type_invariant]
    spec fn distinct(&self) -> bool {
        texts(self.created@).no_duplicates() && texts(self.deleted@).no_duplicates()
    }

    /// A payload with the given folders, each of them kept once.
    pub fn from_folders(created: Vec<String>, deleted: Vec<String>) -> (payload: Payload)
        ensures
            payload@.created == texts(created@).to_set(),
            payload@.deleted == texts(deleted@).to_set(),
    {
        Payload { created: distinct_of(created), deleted: distinct_of(deleted) }
    }

    /// Whether there is nothing to tell the scanner.
    pub fn is_empty(&self) -> (empty: bool)
        ensures
            empty == self@.is_empty(),
    {
        proof {
            if self.created@.len() > 0 {
                assert(texts(self.created@).to_set().contains(texts(self.created@)[0]));
            }
            if self.deleted@.len() > 0 {
                assert(texts(self.deleted@).to_set().contains(texts(self.deleted@)[0]));
            }
            assert(self.created@.len() == 0 ==> texts(self.created@).to_set() =~= Set::empty());
            assert(self.deleted@.len() == 0 ==> texts(self.deleted@).to_set() =~= Set::empty());
        }
        self.created.len() == 0 && self.deleted.len() == 0
    }

    /// The folders with something new in them, in no particular order.
    pub fn created(&self) -> (folders: &Vec<String>)
        ensures
            texts(folders@).to_set() == self@.created,
            texts(folders@).no_duplicates(),
    {
        proof {
            use_type_invariant(self);
        }
        &self.created
    }

    /// The folders with something gone from them, in no particular order.
    pub fn deleted(&self) -> (folders: &Vec<String>)
        ensures
            texts(folders@).to_set() == self@.deleted,
            texts(folders@).no_duplicates(),
    {
        proof {
            use_type_invariant(self);
        }
        &self.deleted
    }
}

impl Default for Payload {
    fn default() -> (payload: Payload)
        ensures
            payload@ == ChangeSet::empty(),
    {
        let payload = Payload { created: Vec::new(), deleted: Vec::new() };
        proof {
            assert(payload@.created =~= Set::empty());
            assert(payload@.deleted =~= Set::empty());
        }
        payload
    }
}

impl PartialEq for Payload {
    fn eq(&self, other: &Payload) -> (same: bool) {
        let same = covers(&self.created, &other.created) && covers(&other.created, &self.created)
            && covers(&self.deleted, &other.deleted) && covers(&other.deleted, &self.deleted);
        proof {
            if same {
                assert(self@.created =~= other@.created);
                assert(self@.deleted =~= other@.deleted);
            }
        }
        same
    }
}

impl PartialEqSpecImpl for Payload {
    open spec fn obeys_eq_spec() -> bool {
        true
    }

    open spec fn eq_spec(&self, other: &Payload) -> bool {
        self@ == other@
    }
}

/// The texts of `list`, each of them once, in the order of their first
/// occurrence.
fn distinct_of(list: Vec<String>) -> (distinct: Vec<String>)
    ensures
        texts(distinct@).no_duplicates(),
        texts(distinct@).to_set() == texts(list@).to_set(),
{
    let mut distinct: Vec<String> = Vec::new();
    let mut i: usize = 0;
    while i < list.len()
        invariant
            i <= list.len(),
            texts(distinct@).no_duplicates(),
            texts(distinct@).to_set() == texts(list@).take(i as int).to_set(),
        decreases list.len() - i,
    {
        proof {
            let seen = texts(list@).take(i as int);
            assert(texts(list@).take(i + 1) =~= seen.push(texts(list@)[i as int]));
            seen.lemma_push_to_set_commute(texts(list@)[i as int]);
        }
        insert(&mut distinct, list[i].clone());
        i += 1;
    }
    assert(texts(list@).take(list@.len() as int) =~= texts(list@));
    distinct
}

/// Reduces the changes of a drive to the folders that the scanner has to look
/// at.
pub fn create_payload(changed_paths: Vec<ChangedPath>) -> (payload: Payload)
    ensures
        payload@ == reduce(events_of(changed_paths@)),
{
    let ghost events = events_of(changed_paths@);
    let mut created: Vec<String> = Vec::new();
    let mut deleted: Vec<String> = Vec::new();
    let mut i: usize = 0;
    proof {
        assert(reduce(events.take(0)).created =~= texts(created@).to_set());
        assert(reduce(events.take(0)).deleted =~= texts(deleted@).to_set());
    }
    while i < changed_paths.len()
        invariant
            i <= changed_paths.len(),
            events == events_of(changed_paths@),
            texts(created@).no_duplicates(),
            texts(deleted@).no_duplicates(),
            texts(created@).to_set() == reduce(events.take(i as int)).created,
            texts(deleted@).to_set() == reduce(events.take(i as int)).deleted,
        decreases changed_paths.len() - i,
    {
        proof {
            assert(events.take(i + 1) =~= events.take(i as int).push(changed_paths@[i as int]@));
            lemma_reduce_push(events.take(i as int), changed_paths@[i as int]@);
        }
        match &changed_paths[i] {
            ChangedPath::Created(path) => {
                insert(&mut created, path.folder());
            },
            ChangedPath::Deleted(path) => {
                if !path.trashed() {
                    insert(&mut deleted, path.folder());
                }
            },
        }
        i += 1;
    }
    assert(events.take(changed_paths@.len() as int) =~= events);
    Payload { created, deleted }
}

} // verus!
