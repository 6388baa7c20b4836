//! Laws of the queue store, stated over its mathematical model and proved
//! once and for all.
//!
//! Every operation of the store promises a result written with the functions
//! of `model`, so each law below holds of every run of the executable code.

use crate::model::{front, inserted, popped, queue_of, touched, StoreModel};
use vstd::prelude::*;
use vstd::seq_lib::lemma_multiset_commutative;

verus! {

/// The store after each of `messages` was inserted into `name`, first to
/// last.
pub open spec fn insert_all(s: StoreModel, name: Seq<char>, messages: Seq<Seq<char>>) -> StoreModel
    decreases messages.len(),
{
    if messages.len() == 0 {
        s
    } else {
        inserted(insert_all(s, name, messages.drop_last()), name, messages.last())
    }
}

/// The store after `n` pops on `name`.
pub open spec fn pop_n(s: StoreModel, name: Seq<char>, n: nat) -> StoreModel
    decreases n,
{
    if n == 0 {
        s
    } else {
        popped(pop_n(s, name, (n - 1) as nat), name)
    }
}

/// What `n` pops on `name` hand out, in the order of the calls.
pub open spec fn pop_results(s: StoreModel, name: Seq<char>, n: nat) -> Seq<Option<Seq<char>>>
    decreases n,
{
    if n == 0 {
        Seq::empty()
    } else {
        pop_results(s, name, (n - 1) as nat).push(front(pop_n(s, name, (n - 1) as nat), name))
    }
}

/// One step of a client that works on a single queue.
pub enum QueueOp {
    /// Append this message.
    Insert(Seq<char>),
    /// Take the oldest message, if there is one.
    Pop,
}

/// The store after one step on `name`.
pub open spec fn apply_op(s: StoreModel, name: Seq<char>, op: QueueOp) -> StoreModel {
    match op {
        QueueOp::Insert(message) => inserted(s, name, message),
        QueueOp::Pop => popped(s, name),
    }
}

/// The store after the steps `ops` on `name`, first to last.
pub open spec fn apply_ops(s: StoreModel, name: Seq<char>, ops: Seq<QueueOp>) -> StoreModel
    decreases ops.len(),
{
    if ops.len() == 0 {
        s
    } else {
        apply_op(apply_ops(s, name, ops.drop_last()), name, ops.last())
    }
}

/// How many of `ops` are inserts.
pub open spec fn inserts_in(ops: Seq<QueueOp>) -> nat
    decreases ops.len(),
{
    if ops.len() == 0 {
        0
    } else if ops.last() is Insert {
        inserts_in(ops.drop_last()) + 1
    } else {
        inserts_in(ops.drop_last())
    }
}

/// How many of `ops` are pops.
pub open spec fn pops_in(ops: Seq<QueueOp>) -> nat
    decreases ops.len(),
{
    if ops.len() == 0 {
        0
    } else if ops.last() is Pop {
        pops_in(ops.drop_last()) + 1
    } else {
        pops_in(ops.drop_last())
    }
}

/// No pop among `ops` meets an empty queue, when the queue holds `start`
/// messages before the first step: at every point the pops so far are covered
/// by what was there and what was inserted.
pub open spec fn every_pop_served(start: nat, ops: Seq<QueueOp>) -> bool {
    forall|k: int|
        0 <= k <= ops.len() ==> #[trigger] pops_in(ops.take(k)) <= start + inserts_in(ops.take(k))
}

/// Inserting appends: after a run of inserts the queue holds what it held
/// before, followed by the inserted messages in the order of the calls. No
/// other queue is touched.
pub proof fn lemma_inserts_append(s: StoreModel, name: Seq<char>, messages: Seq<Seq<char>>)
    ensures
        queue_of(insert_all(s, name, messages), name) == queue_of(s, name) + messages,
        forall|other: Seq<char>|
            other != name ==> #[trigger] queue_of(insert_all(s, name, messages), other) == queue_of(
                s,
                other,
            ),
    decreases messages.len(),
{
    if messages.len() == 0 {
        assert(queue_of(s, name) + messages =~= queue_of(s, name));
    } else {
        let earlier = insert_all(s, name, messages.drop_last());
        lemma_inserts_append(s, name, messages.drop_last());
        assert(queue_of(s, name) + messages =~= (queue_of(s, name) + messages.drop_last()).push(
            messages.last(),
        ));
        assert forall|other: Seq<char>| other != name implies #[trigger] queue_of(
            insert_all(s, name, messages),
            other,
        ) == queue_of(s, other) by {
            assert(queue_of(earlier, other) == queue_of(s, other));
        }
    }
}

/// Popping takes from the front: `n` pops hand out the first `n` messages of
/// the queue in their order, then `None` for every pop beyond its length, and
/// leave the rest of the queue as it was.
pub proof fn lemma_pops_take_the_front(s: StoreModel, name: Seq<char>, n: nat)
    ensures
        pop_results(s, name, n).len() == n,
        forall|i: int|
            0 <= i < n ==> #[trigger] pop_results(s, name, n)[i] == if i < queue_of(s, name).len() {
                Some(queue_of(s, name)[i])
            } else {
                None
            },
        n <= queue_of(s, name).len() ==> queue_of(pop_n(s, name, n), name) == queue_of(
            s,
            name,
        ).skip(n as int),
        n > queue_of(s, name).len() ==> queue_of(pop_n(s, name, n), name).len() == 0,
    decreases n,
{
    if n > 0 {
        let m = (n - 1) as nat;
        lemma_pops_take_the_front(s, name, m);
        let q = queue_of(s, name);
        if m < q.len() {
            assert(q.skip(m as int).drop_first() =~= q.skip(n as int));
            assert(q.skip(m as int)[0] == q[m as int]);
        }
    } else {
        assert(queue_of(s, name).skip(0) =~= queue_of(s, name));
    }
}

/// First in, first out: when messages are inserted into a queue that holds
/// nothing, with no pop in between, then as many pops hand out exactly those
/// messages, in the order in which they were inserted, and leave the queue
/// empty.
pub proof fn lemma_fifo(s: StoreModel, name: Seq<char>, messages: Seq<Seq<char>>)
    requires
        queue_of(s, name).len() == 0,
    ensures
        pop_results(insert_all(s, name, messages), name, messages.len()) == messages.map_values(
            |m: Seq<char>| Some(m),
        ),
        queue_of(pop_n(insert_all(s, name, messages), name, messages.len()), name).len() == 0,
{
    let filled = insert_all(s, name, messages);
    lemma_inserts_append(s, name, messages);
    assert(queue_of(filled, name) =~= messages);
    lemma_pops_take_the_front(filled, name, messages.len());
    assert(pop_results(filled, name, messages.len()) =~= messages.map_values(
        |m: Seq<char>| Some(m),
    ));
}

/// First in, first out, for a queue that already holds messages: the pops
/// hand out the older messages first, then the inserted ones, each in its
/// order.
pub proof fn lemma_fifo_after_backlog(
    s: StoreModel,
    name: Seq<char>,
    messages: Seq<Seq<char>>,
    n: nat,
)
    requires
        n <= queue_of(s, name).len() + messages.len(),
    ensures
        pop_results(insert_all(s, name, messages), name, n) == (queue_of(s, name)
            + messages).take(n as int).map_values(|m: Seq<char>| Some(m)),
{
    let filled = insert_all(s, name, messages);
    lemma_inserts_append(s, name, messages);
    lemma_pops_take_the_front(filled, name, n);
    assert(pop_results(filled, name, n) =~= (queue_of(s, name) + messages).take(
        n as int,
    ).map_values(|m: Seq<char>| Some(m)));
}

/// The count follows the steps: when no pop meets an empty queue, the queue
/// ends with as many messages as it had, plus the inserts, minus the pops. On
/// a queue that starts empty that is the number of inserts minus the number of
/// pops.
pub proof fn lemma_count_after_ops(s: StoreModel, name: Seq<char>, ops: Seq<QueueOp>)
    requires
        every_pop_served(queue_of(s, name).len(), ops),
    ensures
        queue_of(apply_ops(s, name, ops), name).len() == queue_of(s, name).len() + inserts_in(ops)
            - pops_in(ops),
    decreases ops.len(),
{
    if ops.len() > 0 {
        let start = queue_of(s, name).len();
        let earlier = ops.drop_last();
        assert forall|k: int| 0 <= k <= earlier.len() implies #[trigger] pops_in(earlier.take(k))
            <= start + inserts_in(earlier.take(k)) by {
            assert(earlier.take(k) =~= ops.take(k));
        }
        lemma_count_after_ops(s, name, earlier);
        assert(ops.take(ops.len() as int) =~= ops);
        assert(pops_in(ops.take(ops.len() as int)) <= start + inserts_in(
            ops.take(ops.len() as int),
        ));
    }
}

/// Queues are never deleted: whatever an operation does, every queue that
/// existed before it exists after it, and so does the queue that it named.
pub proof fn lemma_queues_only_grow(
    s: StoreModel,
    name: Seq<char>,
    message: Seq<char>,
    other: Seq<char>,
)
    requires
        s.contains_key(other) || other == name,
    ensures
        inserted(s, name, message).contains_key(other),
        popped(s, name).contains_key(other),
        touched(s, name).contains_key(other),
{
}

/// Queues do not disturb each other: an operation on one name leaves the
/// queue of every other name as it was.
pub proof fn lemma_other_queues_untouched(
    s: StoreModel,
    name: Seq<char>,
    message: Seq<char>,
    other: Seq<char>,
)
    requires
        other != name,
    ensures
        queue_of(inserted(s, name, message), other) == queue_of(s, other),
        queue_of(popped(s, name), other) == queue_of(s, other),
        queue_of(touched(s, name), other) == queue_of(s, other),
{
}

/// Reading is idempotent: listing a queue leaves a store on which a second
/// listing gives the same messages and changes nothing. The same holds of
/// counting.
pub proof fn lemma_read_twice(s: StoreModel, name: Seq<char>)
    ensures
        queue_of(touched(s, name), name) == queue_of(s, name),
        touched(touched(s, name), name) == touched(s, name),
{
    assert(touched(touched(s, name), name) =~= touched(s, name));
}

/// Reading changes no queue: after a listing or a count every queue, the one
/// that was read too, holds what it held before.
pub proof fn lemma_read_keeps_queues(s: StoreModel, name: Seq<char>, other: Seq<char>)
    ensures
        queue_of(touched(s, name), other) == queue_of(s, other),
{
}

/// A name that no operation has seen reads as an empty queue: its listing is
/// empty, its count is zero and a pop on it hands out nothing.
pub proof fn lemma_unseen_is_empty(s: StoreModel, name: Seq<char>)
    requires
        !s.contains_key(name),
    ensures
        queue_of(s, name) == Seq::<Seq<char>>::empty(),
        queue_of(s, name).len() == 0,
        front(s, name).is_none(),
        queue_of(popped(s, name), name).len() == 0,
{
}

/// Inserts lose and invent nothing, whatever their order: after the inserts
/// the queue holds, as a multiset, what it held before together with every
/// inserted message, each as often as it was inserted.
pub proof fn lemma_inserts_keep_every_message(
    s: StoreModel,
    name: Seq<char>,
    messages: Seq<Seq<char>>,
)
    ensures
        queue_of(insert_all(s, name, messages), name).len() == queue_of(s, name).len()
            + messages.len(),
        queue_of(insert_all(s, name, messages), name).to_multiset() == queue_of(
            s,
            name,
        ).to_multiset().add(messages.to_multiset()),
{
    lemma_inserts_append(s, name, messages);
    lemma_multiset_commutative(queue_of(s, name), messages);
}

/// The order in which a set of inserts reaches the store decides the order of
/// the queue and nothing else: two orders of the same messages leave queues
/// of the same length with the same messages.
pub proof fn lemma_insert_order_keeps_content(
    s: StoreModel,
    name: Seq<char>,
    one_order: Seq<Seq<char>>,
    other_order: Seq<Seq<char>>,
)
    requires
        one_order.to_multiset() == other_order.to_multiset(),
    ensures
        queue_of(insert_all(s, name, one_order), name).to_multiset() == queue_of(
            insert_all(s, name, other_order),
            name,
        ).to_multiset(),
        queue_of(insert_all(s, name, one_order), name).len() == queue_of(
            insert_all(s, name, other_order),
            name,
        ).len(),
{
    lemma_inserts_keep_every_message(s, name, one_order);
    lemma_inserts_keep_every_message(s, name, other_order);
    one_order.to_multiset_ensures();
    other_order.to_multiset_ensures();
}

} // verus!
