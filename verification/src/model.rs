//! The mathematical model of the queue store: a map from queue names to
//! message sequences, and the four operations as functions on that map.

use vstd::prelude::*;

verus! {

/// What a store is, mathematically: each queue name that was ever referenced,
/// with the messages waiting under it, oldest first.
pub type StoreModel = Map<Seq<char>, Seq<Seq<char>>>;

/// The messages waiting under `name`. A name that was never referenced reads
/// as an empty queue.
pub open spec fn queue_of(s: StoreModel, name: Seq<char>) -> Seq<Seq<char>> {
    if s.contains_key(name) {
        s[name]
    } else {
        Seq::empty()
    }
}

/// The store after `name` was referenced: the queue exists, with whatever it
/// held before.
pub open spec fn touched(s: StoreModel, name: Seq<char>) -> StoreModel {
    s.insert(name, queue_of(s, name))
}

/// The store after `message` was appended to the back of `name`.
pub open spec fn inserted(s: StoreModel, name: Seq<char>, message: Seq<char>) -> StoreModel {
    s.insert(name, queue_of(s, name).push(message))
}

/// The message a pop on `name` hands out: the oldest one, if there is any.
pub open spec fn front(s: StoreModel, name: Seq<char>) -> Option<Seq<char>> {
    if queue_of(s, name).len() > 0 {
        Some(queue_of(s, name)[0])
    } else {
        None
    }
}

/// The store after a pop on `name`: the oldest message is gone; an empty or
/// unseen queue is left (or created) empty.
pub open spec fn popped(s: StoreModel, name: Seq<char>) -> StoreModel {
    if queue_of(s, name).len() > 0 {
        s.insert(name, queue_of(s, name).drop_first())
    } else {
        touched(s, name)
    }
}

} // verus!
