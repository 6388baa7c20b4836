//! Named FIFO queues of string messages, for one owner at a time.

use crate::model::{front, inserted, popped, queue_of, touched, StoreModel};
use std::collections::VecDeque;
use vstd::hash_map::StringHashMap;
use vstd::prelude::*;

verus! {

/// A collection of FIFO message queues, each known by its name.
///
/// The queues live in `queues` and never move or disappear; `slots` says under
/// which index the queue of a name is kept. The index is a map whose contents
/// are known to the verifier for `String` keys; it hands out no mutable
/// reference to a value, so it holds positions, and a queue is changed in
/// place where it lies.
pub struct QueueMap {
    slots: StringHashMap<usize>,
    queues: Vec<VecDeque<String>>,
}

/// The store that a name index and the queues it points into stand for.
spec fn model_of(slots: Map<Seq<char>, usize>, queues: Seq<VecDeque<String>>) -> StoreModel {
    Map::new(
        |name: Seq<char>| slots.contains_key(name),
        |name: Seq<char>| queues[slots[name] as int].deep_view(),
    )
}

/// Every name points at a queue that exists, and no two names share one.
spec fn linked(slots: Map<Seq<char>, usize>, queues: Seq<VecDeque<String>>) -> bool {
    &&& forall|name: Seq<char>| #[trigger]
        slots.contains_key(name) ==> slots[name] < queues.len()
    &&& forall|a: Seq<char>, b: Seq<char>|
        #![trigger slots[a], slots[b]]
        slots.contains_key(a) && slots.contains_key(b) && a != b ==> slots[a] != slots[b]
}

/// Changing the one queue that `name` points at changes the model under
/// `name` and nowhere else.
proof fn lemma_one_queue_changed(
    slots: Map<Seq<char>, usize>,
    before: Seq<VecDeque<String>>,
    after: Seq<VecDeque<String>>,
    name: Seq<char>,
)
    requires
        linked(slots, before),
        slots.contains_key(name),
        after.len() == before.len(),
        forall|j: int| 0 <= j < before.len() && j != slots[name] ==> after[j] == before[j],
    ensures
        linked(slots, after),
        model_of(slots, after) == model_of(slots, before).insert(
            name,
            after[slots[name] as int].deep_view(),
        ),
{
    let changed = model_of(slots, before).insert(name, after[slots[name] as int].deep_view());
    assert forall|other: Seq<char>| #[trigger] slots.contains_key(other) implies model_of(
        slots,
        after,
    )[other] == changed[other] by {
        if other != name {
            assert(slots[other] != slots[name]);
        }
    }
    assert(model_of(slots, after).dom() =~= changed.dom());
    assert(model_of(slots, after) =~= changed);
}

impl View for QueueMap {
    type V = StoreModel;

    closed spec fn view(&self) -> StoreModel {
        model_of(self.slots@, self.queues@)
    }
}

impl QueueMap {
    #[verifier::type_invariant]
    spec fn inv(self) -> bool {
        linked(self.slots@, self.queues@)
    }

    /// A store without any queue.
    pub fn new() -> (s: Self)
        ensures
            s@ == Map::<Seq<char>, Seq<Seq<char>>>::empty(),
    {
        let s = QueueMap { slots: StringHashMap::new(), queues: Vec::new() };
        assert(s@ =~= Map::<Seq<char>, Seq<Seq<char>>>::empty());
        s
    }

    /// Moves the two parts out, so that they can be changed one after the
    /// other, and leaves an empty store until the caller puts them back.
    fn take_parts(&mut self) -> (parts: (StringHashMap<usize>, Vec<VecDeque<String>>))
        ensures
            parts.0 == old(self).slots,
            parts.1 == old(self).queues,
            linked(parts.0@, parts.1@),
    {
        proof {
            use_type_invariant(&*self);
        }
        let mut taken = QueueMap::new();
        std::mem::swap(self, &mut taken);
        (taken.slots, taken.queues)
    }

    /// The index of the queue of `queue_name`, which is created empty when the
    /// name is new.
    fn slot_of(
        slots: &mut StringHashMap<usize>,
        queues: &mut Vec<VecDeque<String>>,
        queue_name: &str,
    ) -> (i: usize)
        requires
            linked(old(slots)@, old(queues)@),
        ensures
            linked(final(slots)@, final(queues)@),
            model_of(final(slots)@, final(queues)@) == touched(
                model_of(old(slots)@, old(queues)@),
                queue_name@,
            ),
            final(slots)@.contains_key(queue_name@),
            final(slots)@[queue_name@] == i,
            i < final(queues)@.len(),
            final(queues)@[i as int].deep_view() == queue_of(
                model_of(old(slots)@, old(queues)@),
                queue_name@,
            ),
    {
        let ghost before = model_of(slots@, queues@);
        match slots.get(queue_name) {
            Some(i) => {
                let i: usize = *i;
                assert(before[queue_name@] == queues@[i as int].deep_view());
                assert(model_of(slots@, queues@) =~= touched(before, queue_name@));
                i
            },
            None => {
                let i: usize = queues.len();
                queues.push(VecDeque::new());
                slots.insert(queue_name.to_owned(), i);
                assert(queues@[i as int].deep_view() =~= Seq::<Seq<char>>::empty());
                assert(model_of(slots@, queues@) =~= touched(before, queue_name@));
                i
            },
        }
    }

    /// Whether a queue named `queue_name` exists: whether the name was ever
    /// handed to `insert`, `pop`, `list_all` or `count`.
    pub fn has_queue(&self, queue_name: &str) -> (b: bool)
        ensures
            b == self@.contains_key(queue_name@),
    {
        self.slots.contains_key(queue_name)
    }

    /// Appends `message` to the back of the queue `queue_name`, creating the
    /// queue when it is not there yet.
    pub fn insert(&mut self, queue_name: &str, message: String)
        ensures
            final(self)@ == inserted(old(self)@, queue_name@, message@),
    {
        let (mut slots, mut queues) = self.take_parts();
        let i: usize = Self::slot_of(&mut slots, &mut queues, queue_name);
        let ghost before = queues@;
        queues[i].push_back(message);
        proof {
            assert(queues@[i as int].deep_view() =~= before[i as int].deep_view().push(message@));
            lemma_one_queue_changed(slots@, before, queues@, queue_name@);
            assert(model_of(slots@, queues@) =~= inserted(old(self)@, queue_name@, message@));
        }
        *self = QueueMap { slots, queues };
    }

    /// Removes the oldest message of the queue `queue_name` and returns it.
    /// Where the queue holds nothing, or was never seen, the answer is `None`
    /// and the queue is left (or created) empty.
    pub fn pop(&mut self, queue_name: &str) -> (message: Option<String>)
        ensures
            final(self)@ == popped(old(self)@, queue_name@),
            match message {
                Some(m) => front(old(self)@, queue_name@) == Some(m@),
                None => front(old(self)@, queue_name@).is_none(),
            },
            !old(self)@.contains_key(queue_name@) ==> message.is_none(),
    {
        let (mut slots, mut queues) = self.take_parts();
        let i: usize = Self::slot_of(&mut slots, &mut queues, queue_name);
        let ghost before = queues@;
        let message = queues[i].pop_front();
        proof {
            if message.is_some() {
                assert(queues@[i as int].deep_view() =~= before[i as int].deep_view().drop_first());
                assert(before[i as int].deep_view()[0] == message.unwrap()@);
            }
            lemma_one_queue_changed(slots@, before, queues@, queue_name@);
            assert(model_of(slots@, queues@) =~= popped(old(self)@, queue_name@));
        }
        *self = QueueMap { slots, queues };
        message
    }

    /// A copy of the messages waiting in the queue `queue_name`, oldest first.
    /// The queue keeps them all; a name never seen before gets an empty queue
    /// and the answer is empty.
    pub fn list_all(&mut self, queue_name: &str) -> (messages: Vec<String>)
        ensures
            messages.deep_view() == queue_of(old(self)@, queue_name@),
            final(self)@ == touched(old(self)@, queue_name@),
            !old(self)@.contains_key(queue_name@) ==> messages@.len() == 0,
    {
        let (mut slots, mut queues) = self.take_parts();
        let i: usize = Self::slot_of(&mut slots, &mut queues, queue_name);
        let messages = copy_queue(&queues[i]);
        *self = QueueMap { slots, queues };
        messages
    }

    /// The number of messages waiting in the queue `queue_name`: zero for an
    /// empty queue and for a name never seen before, which gets an empty
    /// queue.
    pub fn count(&mut self, queue_name: &str) -> (n: usize)
        ensures
            n == queue_of(old(self)@, queue_name@).len(),
            final(self)@ == touched(old(self)@, queue_name@),
            !old(self)@.contains_key(queue_name@) ==> n == 0,
    {
        let (mut slots, mut queues) = self.take_parts();
        let i: usize = Self::slot_of(&mut slots, &mut queues, queue_name);
        let n: usize = queues[i].len();
        assert(n == queues@[i as int].deep_view().len());
        *self = QueueMap { slots, queues };
        n
    }

    /// A copy of the messages of the queue `queue_name` if that queue exists,
    /// oldest first. Nothing is created: a name never seen before gives
    /// `None`.
    pub fn snapshot(&self, queue_name: &str) -> (found: Option<Vec<String>>)
        ensures
            match found {
                Some(messages) => self@.contains_key(queue_name@) && messages.deep_view()
                    == self@[queue_name@],
                None => !self@.contains_key(queue_name@),
            },
    {
        proof {
            use_type_invariant(self);
        }
        match self.slots.get(queue_name) {
            Some(i) => Some(copy_queue(&self.queues[*i])),
            None => None,
        }
    }
}

/// A copy of the messages of one queue, oldest first.
fn copy_queue(queue: &VecDeque<String>) -> (messages: Vec<String>)
    ensures
        messages.deep_view() == queue.deep_view(),
{
    let mut messages: Vec<String> = Vec::new();
    let mut i: usize = 0;
    while i < queue.len()
        invariant
            i <= queue.len(),
            messages.len() == i,
            forall|j: int| 0 <= j < i ==> messages@[j]@ == queue@[j]@,
        decreases queue.len() - i,
    {
        messages.push(queue[i].clone());
        i += 1;
    }
    assert(messages.deep_view() =~= queue.deep_view());
    messages
}

} // verus!
