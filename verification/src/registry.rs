//! Name-keyed registries of topics and queues: a name is registered at most
//! once, and registering it again gives back what is already there.

use std::sync::Arc;
use vstd::prelude::*;

use crate::models::{Queue, Topic};
use crate::text::str_eq;
use crate::trusted::arc_clone;

verus! {

/// The item named `name` in `items`, where `name_of` gives an item's name;
/// the last such item if there are several.
pub open spec fn lookup_named<T>(items: Seq<T>, name_of: spec_fn(T) -> Seq<char>, name: Seq<char>) -> Option<T>
    decreases items.len(),
{
    if items.len() == 0 {
        None
    } else if name_of(items.last()) == name {
        Some(items.last())
    } else {
        lookup_named(items.drop_last(), name_of, name)
    }
}

/// Whether no two items of `items` share a name.
pub open spec fn names_unique<T>(items: Seq<T>, name_of: spec_fn(T) -> Seq<char>) -> bool {
    forall|i: int, j: int|
        0 <= i < items.len() && 0 <= j < items.len() && i != j ==> name_of(#[trigger] items[i])
            != name_of(#[trigger] items[j])
}

/// Registering `item`: when an item of the same name is there, the items
/// stay as they are and that item is the answer; else `item` is added and
/// is the answer.
pub open spec fn registered<T>(items: Seq<T>, name_of: spec_fn(T) -> Seq<char>, item: T) -> (Seq<T>, T) {
    match lookup_named(items, name_of, name_of(item)) {
        Some(existing) => (items, existing),
        None => (items.push(item), item),
    }
}

/// The name of a registered topic.
pub open spec fn topic_name_of() -> spec_fn(Arc<Topic>) -> Seq<char> {
    |t: Arc<Topic>| t.spec_name()
}

/// The name of a registered queue.
pub open spec fn queue_name_of() -> spec_fn(Arc<Queue>) -> Seq<char> {
    |q: Arc<Queue>| q.spec_name()
}

/// An item found by name has that name and is one of the items; when none
/// is found, no item has that name.
pub proof fn lemma_lookup_named<T>(items: Seq<T>, name_of: spec_fn(T) -> Seq<char>, name: Seq<char>)
    ensures
        match lookup_named(items, name_of, name) {
            Some(x) => name_of(x) == name && items.contains(x),
            None => forall|i: int| 0 <= i < items.len() ==> name_of(#[trigger] items[i]) != name,
        },
    decreases items.len(),
{
    if items.len() > 0 {
        lemma_lookup_named(items.drop_last(), name_of, name);
        if name_of(items.last()) == name {
            assert(items[items.len() - 1] == items.last());
        } else {
            match lookup_named(items.drop_last(), name_of, name) {
                Some(x) => {
                    let k = choose|k: int| 0 <= k < items.drop_last().len() && items.drop_last()[k] == x;
                    assert(items[k] == x);
                },
                None => {
                    assert forall|i: int| 0 <= i < items.len() implies name_of(#[trigger] items[i])
                        != name by {
                        if i < items.len() - 1 {
                            assert(items[i] == items.drop_last()[i]);
                        }
                    }
                },
            }
        }
    }
}

/// Registering keeps names unique, makes the name map to the answer, and
/// leaves every other name as it was.
pub proof fn lemma_registered<T>(items: Seq<T>, name_of: spec_fn(T) -> Seq<char>, item: T, other: Seq<char>)
    requires
        names_unique(items, name_of),
    ensures
        names_unique(registered(items, name_of, item).0, name_of),
        lookup_named(registered(items, name_of, item).0, name_of, name_of(item)) == Some(
            registered(items, name_of, item).1,
        ),
        name_of(registered(items, name_of, item).1) == name_of(item),
        other != name_of(item) ==> lookup_named(registered(items, name_of, item).0, name_of, other)
            == lookup_named(items, name_of, other),
{
    lemma_lookup_named(items, name_of, name_of(item));
    let pushed = items.push(item);
    assert(pushed.drop_last() =~= items);
    match lookup_named(items, name_of, name_of(item)) {
        Some(_) => {},
        None => {
            assert forall|i: int, j: int|
                0 <= i < pushed.len() && 0 <= j < pushed.len() && i != j implies name_of(
                #[trigger] pushed[i],
            ) != name_of(#[trigger] pushed[j]) by {
                if i < items.len() {
                    assert(pushed[i] == items[i]);
                }
                if j < items.len() {
                    assert(pushed[j] == items[j]);
                }
            }
        },
    }
}

/// Registering is idempotent: registering an item of a name that was just
/// registered changes nothing and gives back the first answer.
pub proof fn lemma_register_idempotent<T>(
    items: Seq<T>,
    name_of: spec_fn(T) -> Seq<char>,
    first: T,
    second: T,
)
    requires
        name_of(first) == name_of(second),
    ensures
        registered(registered(items, name_of, first).0, name_of, second) == registered(
            items,
            name_of,
            first,
        ),
{
    let pushed = items.push(first);
    assert(pushed.drop_last() =~= items);
    assert(pushed.last() == first);
}

/// Topics are kept under exactly their own full names: a topic found under
/// `name` has the full name `name` and is one of the topics; a topic whose
/// full name is `name` is always found under it; and once `t` is registered,
/// looking up `t`'s full name, as it is, finds a topic of that full name.
pub proof fn lemma_topics_found_by_full_name(
    topics: Seq<Arc<Topic>>,
    t: Arc<Topic>,
    name: Seq<char>,
)
    ensures
        lookup_named(topics, topic_name_of(), name) matches Some(x) ==> x.spec_name() == name
            && topics.contains(x),
        (exists|i: int| 0 <= i < topics.len() && (#[trigger] topics[i]).spec_name() == name)
            ==> lookup_named(topics, topic_name_of(), name) is Some,
        lookup_named(registered(topics, topic_name_of(), t).0, topic_name_of(), t.spec_name())
            matches Some(x) && x.spec_name() == t.spec_name(),
{
    lemma_lookup_named(topics, topic_name_of(), name);
    if exists|i: int| 0 <= i < topics.len() && (#[trigger] topics[i]).spec_name() == name {
        let i = choose|i: int| 0 <= i < topics.len() && (#[trigger] topics[i]).spec_name() == name;
        assert(topic_name_of()(topics[i]) == name);
    }
    lemma_lookup_named(topics, topic_name_of(), t.spec_name());
    let pushed = topics.push(t);
    assert(pushed.drop_last() =~= topics);
    lemma_lookup_named(registered(topics, topic_name_of(), t).0, topic_name_of(), t.spec_name());
}

/// Queues are kept under exactly their own full names: a queue found under
/// `name` has the full name `name` and is one of the queues; a queue whose
/// full name is `name` is always found under it; and once `q` is registered,
/// looking up `q`'s full name, as it is, finds a queue of that full name.
pub proof fn lemma_queues_found_by_full_name(
    queues: Seq<Arc<Queue>>,
    q: Arc<Queue>,
    name: Seq<char>,
)
    ensures
        lookup_named(queues, queue_name_of(), name) matches Some(x) ==> x.spec_name() == name
            && queues.contains(x),
        (exists|i: int| 0 <= i < queues.len() && (#[trigger] queues[i]).spec_name() == name)
            ==> lookup_named(queues, queue_name_of(), name) is Some,
        lookup_named(registered(queues, queue_name_of(), q).0, queue_name_of(), q.spec_name())
            matches Some(x) && x.spec_name() == q.spec_name(),
{
    lemma_lookup_named(queues, queue_name_of(), name);
    if exists|i: int| 0 <= i < queues.len() && (#[trigger] queues[i]).spec_name() == name {
        let i = choose|i: int| 0 <= i < queues.len() && (#[trigger] queues[i]).spec_name() == name;
        assert(queue_name_of()(queues[i]) == name);
    }
    lemma_lookup_named(queues, queue_name_of(), q.spec_name());
    let pushed = queues.push(q);
    assert(pushed.drop_last() =~= queues);
    lemma_lookup_named(registered(queues, queue_name_of(), q).0, queue_name_of(), q.spec_name());
}

/// The topics and queues known to a publisher, each registered under its
/// full name.
#[derive(Debug)]
pub struct Registry {
    topics: Vec<Arc<Topic>>,
    queues: Vec<Arc<Queue>>,
}

impl Registry {
    /// The registered topics, in the order they were added.
    pub closed spec fn spec_topics(&self) -> Seq<Arc<Topic>> {
        self.topics@
    }

    /// The registered queues, in the order they were added.
    pub closed spec fn spec_queues(&self) -> Seq<Arc<Queue>> {
        self.queues@
    }

    /// No name is registered twice.
    pub open spec fn wf(&self) -> bool {
        names_unique(self.spec_topics(), topic_name_of()) && names_unique(
            self.spec_queues(),
            queue_name_of(),
        )
    }

    /// The topic registered under `name`, if any.
    pub open spec fn spec_topic(&self, name: Seq<char>) -> Option<Arc<Topic>> {
        lookup_named(self.spec_topics(), topic_name_of(), name)
    }

    /// The queue registered under `name`, if any.
    pub open spec fn spec_queue(&self, name: Seq<char>) -> Option<Arc<Queue>> {
        lookup_named(self.spec_queues(), queue_name_of(), name)
    }

    /// An empty registry.
    pub fn new() -> (res: Self)
        ensures
            res.wf(),
            res.spec_topics() == Seq::<Arc<Topic>>::empty(),
            res.spec_queues() == Seq::<Arc<Queue>>::empty(),
    {
        Registry { topics: Vec::new(), queues: Vec::new() }
    }

    /// The topic registered under `name`, if any.
    pub fn find_topic(&self, name: &str) -> (res: Option<Arc<Topic>>)
        ensures
            res == self.spec_topic(name@),
    {
        let mut i = self.topics.len();
        assert(self.topics@.take(i as int) =~= self.topics@);
        while i > 0
            invariant
                i <= self.topics@.len(),
                self.spec_topic(name@) == lookup_named(
                    self.topics@.take(i as int),
                    topic_name_of(),
                    name@,
                ),
            decreases i,
        {
            let ghost b = self.topics@.take(i as int);
            assert(b.drop_last() =~= self.topics@.take(i - 1));
            if str_eq(self.topics[i - 1].name(), name) {
                return Some(arc_clone(&self.topics[i - 1]));
            }
            i = i - 1;
        }
        None
    }

    /// The queue registered under `name`, if any.
    pub fn find_queue(&self, name: &str) -> (res: Option<Arc<Queue>>)
        ensures
            res == self.spec_queue(name@),
    {
        let mut i = self.queues.len();
        assert(self.queues@.take(i as int) =~= self.queues@);
        while i > 0
            invariant
                i <= self.queues@.len(),
                self.spec_queue(name@) == lookup_named(
                    self.queues@.take(i as int),
                    queue_name_of(),
                    name@,
                ),
            decreases i,
        {
            let ghost b = self.queues@.take(i as int);
            assert(b.drop_last() =~= self.queues@.take(i - 1));
            if str_eq(self.queues[i - 1].name(), name) {
                return Some(arc_clone(&self.queues[i - 1]));
            }
            i = i - 1;
        }
        None
    }

    /// Registers `topic` under its name, unless a topic of that name is
    /// already there; answers the topic registered under the name.
    pub fn register_topic(&mut self, topic: Arc<Topic>) -> (res: Arc<Topic>)
        requires
            old(self).wf(),
        ensures
            final(self).wf(),
            (final(self).spec_topics(), res) == registered(
                old(self).spec_topics(),
                topic_name_of(),
                topic,
            ),
            final(self).spec_queues() == old(self).spec_queues(),
    {
        proof {
            lemma_registered(self.topics@, topic_name_of(), topic, Seq::empty());
        }
        match self.find_topic(topic.name()) {
            Some(existing) => existing,
            None => {
                let res = arc_clone(&topic);
                self.topics.push(topic);
                res
            },
        }
    }

    /// Registers `queue` under its name, unless a queue of that name is
    /// already there; answers the queue registered under the name.
    pub fn register_queue(&mut self, queue: Arc<Queue>) -> (res: Arc<Queue>)
        requires
            old(self).wf(),
        ensures
            final(self).wf(),
            (final(self).spec_queues(), res) == registered(
                old(self).spec_queues(),
                queue_name_of(),
                queue,
            ),
            final(self).spec_topics() == old(self).spec_topics(),
    {
        proof {
            lemma_registered(self.queues@, queue_name_of(), queue, Seq::empty());
        }
        match self.find_queue(queue.name()) {
            Some(existing) => existing,
            None => {
                let res = arc_clone(&queue);
                self.queues.push(queue);
                res
            },
        }
    }
}

} // verus!
