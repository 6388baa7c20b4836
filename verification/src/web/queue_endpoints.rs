//! The handlers of the queue routes.
//!
//! Each handler runs one store operation and turns its answer into a
//! response; the store gives its lock back before the response is written.
//! What a route answers, and what becomes of the queues, is stated by the
//! function of the route that ends in `_locked`, for everything that the lock
//! can give.
//!
//! Inserting and popping create the queue they name. The two reading routes
//! create nothing: they answer 404 for a name under which no queue exists, and
//! 200 for a queue that exists and is empty. An unavailable lock is answered
//! with 500 on every route.
//!
//! A success carries its payload in the envelope; an error carries its
//! message in an object of its own, without the envelope.

use crate::json::{
    count_text, escaped, json_array, json_count, json_items, json_msg, json_string,
    lemma_escaped_concat, lemma_plain_string, plain, JsonError, JsonPayload,
};
use crate::model::{inserted, popped, StoreModel};
use crate::queue_map::QueueMap;
use crate::store::{
    insert_in, insert_locked, lookup_in, lookup_view, pop_in, pop_locked, pop_view,
    snapshot_locked, QueueStore, StoreError,
};
use crate::web::response::{
    envelope, ApiErrorResponse, Response, ResponseHandler, ResponseView, StatusCode,
};
use vstd::prelude::*;
use vstd::string::StringExecFns;

verus! {

/// The body of an insert request.
#[derive(Debug)]
pub struct InsertMessage {
    pub message: String,
}

/// The payload of a count.
#[derive(Debug)]
pub struct MessageCount {
    pub count: usize,
}

impl JsonPayload for MessageCount {
    open spec fn json(&self) -> Option<Seq<char>> {
        Some(json_count(self.count as nat))
    }

    fn encode(&self) -> (r: Result<String, JsonError>) {
        Ok(count_text(self.count))
    }
}

/// The answer of the health route.
pub fn health() -> (text: &'static str)
    ensures
        text@ == "Hello, World!"@,
{
    "Hello, World!"
}

/// A success whose payload is a plain string.
pub open spec fn text_reply(status: StatusCode, text: Seq<char>) -> ResponseView {
    ResponseView { status, body: envelope(Some(json_string(text))) }
}

/// An error with its message.
pub open spec fn error_reply(status: StatusCode, msg: Seq<char>) -> ResponseView {
    ResponseView { status, body: json_msg(msg) }
}

/// The message that says that a queue does not exist.
pub open spec fn not_found_msg(queue_name: Seq<char>) -> Seq<char> {
    "Queue "@ + queue_name + " could not be found"@
}

/// The 404 response for a queue that does not exist.
pub open spec fn not_found_reply(queue_name: Seq<char>) -> ResponseView {
    error_reply(StatusCode::NOT_FOUND, not_found_msg(queue_name))
}

/// The 500 response of the routes that found the lock unavailable.
pub open spec fn lock_failed_reply() -> ResponseView {
    error_reply(StatusCode::INTERNAL_SERVER_ERROR, "Unable to lock queue"@)
}

/// What an insert is answered with: 204 and a confirmation, or 500 where the
/// lock was unavailable.
pub open spec fn insert_reply_view(outcome: Result<(), StoreError>) -> ResponseView {
    match outcome {
        Ok(_) => text_reply(StatusCode::NO_CONTENT, "Message inserted"@),
        Err(_) => error_reply(StatusCode::INTERNAL_SERVER_ERROR, "Unable to add queue"@),
    }
}

/// What a pop is answered with: 200 and the popped message, 200 and an empty
/// array where there was nothing to pop, or 500 where the lock was
/// unavailable.
pub open spec fn pop_reply_view(outcome: Result<Option<Seq<char>>, StoreError>) -> ResponseView {
    match outcome {
        Ok(Some(message)) => text_reply(StatusCode::OK, message),
        Ok(None) => ResponseView {
            status: StatusCode::OK,
            body: envelope(Some(json_array(Seq::empty()))),
        },
        Err(_) => lock_failed_reply(),
    }
}

/// What a count is answered with: 200 and the number of messages of the
/// queue, 404 where the queue does not exist, or 500 where the lock was
/// unavailable.
pub open spec fn count_reply_view(
    queue_name: Seq<char>,
    outcome: Result<Option<Seq<Seq<char>>>, StoreError>,
) -> ResponseView {
    match outcome {
        Ok(Some(messages)) => ResponseView {
            status: StatusCode::OK,
            body: envelope(Some(json_count(messages.len()))),
        },
        Ok(None) => not_found_reply(queue_name),
        Err(_) => lock_failed_reply(),
    }
}

/// What a listing is answered with: 200 and the messages of the queue, oldest
/// first, 404 where the queue does not exist, or 500 where the lock was
/// unavailable.
pub open spec fn messages_reply_view(
    queue_name: Seq<char>,
    outcome: Result<Option<Seq<Seq<char>>>, StoreError>,
) -> ResponseView {
    match outcome {
        Ok(Some(messages)) => ResponseView {
            status: StatusCode::OK,
            body: envelope(Some(json_array(messages))),
        },
        Ok(None) => not_found_reply(queue_name),
        Err(_) => lock_failed_reply(),
    }
}

/// The answers that do not depend on the request, letter by letter.
pub proof fn lemma_fixed_replies()
    ensures
        insert_reply_view(Ok(())).body == "{\"payload\":\"Message inserted\"}"@,
        insert_reply_view(Err(StoreError::LockUnavailable)).body
            == "{\"msg\":\"Unable to add queue\"}"@,
        lock_failed_reply().body == "{\"msg\":\"Unable to lock queue\"}"@,
        pop_reply_view(Ok(None)).body == "{\"payload\":[]}"@,
{
    reveal_strlit("{\"payload\":");
    reveal_strlit("{\"msg\":");
    reveal_strlit("}");
    reveal_strlit("[");
    reveal_strlit("]");
    assert(insert_reply_view(Ok(())).body =~= "{\"payload\":\"Message inserted\"}"@) by {
        reveal_strlit("Message inserted");
        reveal_strlit("{\"payload\":\"Message inserted\"}");
        assert(plain("Message inserted"@));
        lemma_plain_string("Message inserted"@);
    }
    assert(insert_reply_view(Err(StoreError::LockUnavailable)).body
        =~= "{\"msg\":\"Unable to add queue\"}"@) by {
        reveal_strlit("Unable to add queue");
        reveal_strlit("{\"msg\":\"Unable to add queue\"}");
        assert(plain("Unable to add queue"@));
        lemma_plain_string("Unable to add queue"@);
    }
    assert(lock_failed_reply().body =~= "{\"msg\":\"Unable to lock queue\"}"@) by {
        reveal_strlit("Unable to lock queue");
        reveal_strlit("{\"msg\":\"Unable to lock queue\"}");
        assert(plain("Unable to lock queue"@));
        lemma_plain_string("Unable to lock queue"@);
    }
    assert(pop_reply_view(Ok(None)).body =~= "{\"payload\":[]}"@) by {
        reveal_strlit("{\"payload\":[]}");
        assert(json_items(Seq::<Seq<char>>::empty()) =~= Seq::<char>::empty());
    }
}

/// The body of the 404 answer, letter by letter, for a queue name that needs
/// no escape.
pub proof fn lemma_not_found_body(queue_name: Seq<char>)
    requires
        plain(queue_name),
    ensures
        not_found_reply(queue_name).body == "{\"msg\":\"Queue "@ + queue_name
            + " could not be found\"}"@,
{
    reveal_strlit("{\"msg\":");
    reveal_strlit("}");
    reveal_strlit("Queue ");
    reveal_strlit(" could not be found");
    reveal_strlit("{\"msg\":\"Queue ");
    reveal_strlit(" could not be found\"}");
    assert(plain("Queue "@));
    assert(plain(" could not be found"@));
    lemma_plain_string("Queue "@);
    lemma_plain_string(queue_name);
    lemma_plain_string(" could not be found"@);
    lemma_escaped_concat("Queue "@ + queue_name, " could not be found"@);
    lemma_escaped_concat("Queue "@, queue_name);
    assert(escaped(not_found_msg(queue_name)) == not_found_msg(queue_name));
    assert(not_found_reply(queue_name).body =~= "{\"msg\":\"Queue "@ + queue_name
        + " could not be found\"}"@);
}

/// The body of a success that carries a text which needs no escape, letter by
/// letter.
pub proof fn lemma_text_body(status: StatusCode, text: Seq<char>)
    requires
        plain(text),
    ensures
        text_reply(status, text).body == "{\"payload\":\""@ + text + "\"}"@,
{
    reveal_strlit("{\"payload\":");
    reveal_strlit("}");
    reveal_strlit("{\"payload\":\"");
    reveal_strlit("\"}");
    lemma_plain_string(text);
    assert(text_reply(status, text).body =~= "{\"payload\":\""@ + text + "\"}"@);
}

fn not_found(queue_name: &str) -> (r: Response)
    ensures
        r@ == not_found_reply(queue_name@),
{
    let mut msg = String::from_str("Queue ");
    msg.append(queue_name);
    msg.append(" could not be found");
    ApiErrorResponse { msg }.response(&StatusCode::NOT_FOUND)
}

fn lock_failed() -> (r: Response)
    ensures
        r@ == lock_failed_reply(),
{
    ApiErrorResponse { msg: String::from_str("Unable to lock queue") }.response(
        &StatusCode::INTERNAL_SERVER_ERROR,
    )
}

/// Answers an insert whose outcome is known.
pub fn insert_reply(outcome: Result<(), StoreError>) -> (r: Response)
    ensures
        r@ == insert_reply_view(outcome),
{
    match outcome {
        Ok(_) => ResponseHandler::<String>::new(String::from_str("Message inserted")).response(
            &StatusCode::NO_CONTENT,
        ),
        Err(_) => ApiErrorResponse { msg: String::from_str("Unable to add queue") }.response(
            &StatusCode::INTERNAL_SERVER_ERROR,
        ),
    }
}

/// Answers a pop whose outcome is known.
pub fn pop_reply(outcome: Result<Option<String>, StoreError>) -> (r: Response)
    ensures
        r@ == pop_reply_view(pop_view(outcome)),
{
    match outcome {
        Ok(Some(data)) => ResponseHandler::<String>::new(data).response(&StatusCode::OK),
        Ok(None) => {
            let nothing: Vec<String> = Vec::new();
            assert(nothing.deep_view() =~= Seq::<Seq<char>>::empty());
            ResponseHandler::<Vec<String>>::new(nothing).response(&StatusCode::OK)
        },
        Err(_) => lock_failed(),
    }
}

/// Answers a count, given what the lookup of the queue found.
pub fn count_reply(
    queue_name: &str,
    outcome: Result<Option<Vec<String>>, StoreError>,
) -> (r: Response)
    ensures
        r@ == count_reply_view(queue_name@, lookup_view(outcome)),
{
    match outcome {
        Ok(Some(queue)) => {
            assert(queue.len() == queue.deep_view().len());
            ResponseHandler::<MessageCount>::new(MessageCount { count: queue.len() }).response(
                &StatusCode::OK,
            )
        },
        Ok(None) => not_found(queue_name),
        Err(_) => lock_failed(),
    }
}

/// Answers a listing, given what the lookup of the queue found.
pub fn messages_reply(
    queue_name: &str,
    outcome: Result<Option<Vec<String>>, StoreError>,
) -> (r: Response)
    ensures
        r@ == messages_reply_view(queue_name@, lookup_view(outcome)),
{
    match outcome {
        Ok(Some(queue)) => ResponseHandler::<Vec<String>>::new(queue).response(&StatusCode::OK),
        Ok(None) => not_found(queue_name),
        Err(_) => lock_failed(),
    }
}

/// The insert route, given what the lock gave: with the queues in hand, the
/// message of `payload` is appended to the queue `queue_name` and the answer
/// is 204; without them, nothing changes and the answer is 500.
pub fn insert_message_locked(
    queues: Option<&mut QueueMap>,
    queue_name: String,
    payload: InsertMessage,
) -> (r: Response)
    ensures
        match queues {
            Some(q) => r@ == insert_reply_view(insert_in(Some(q@))) && final(q)@ == inserted(
                q@,
                queue_name@,
                payload.message@,
            ),
            None => r@ == insert_reply_view(insert_in(None)),
        },
{
    insert_reply(insert_locked(queues, queue_name.as_str(), payload.message))
}

/// The pop route, given what the lock gave: with the queues in hand, the
/// oldest message of the queue `queue_name` is taken off and answered with
/// 200, or an empty array where the queue holds nothing; without them,
/// nothing changes and the answer is 500.
pub fn pop_message_locked(queues: Option<&mut QueueMap>, queue_name: String) -> (r: Response)
    ensures
        match queues {
            Some(q) => r@ == pop_reply_view(pop_in(Some(q@), queue_name@)) && final(q)@
                == popped(q@, queue_name@),
            None => r@ == pop_reply_view(pop_in(None, queue_name@)),
        },
{
    pop_reply(pop_locked(queues, queue_name.as_str()))
}

/// The count route, given what the lock gave: with the queues in hand, 200
/// and the number of messages of the queue `queue_name`, or 404 where no such
/// queue exists; without them, 500. The queues stay as they are.
pub fn get_queue_msg_count_locked(queues: Option<&QueueMap>, queue_name: String) -> (r: Response)
    ensures
        match queues {
            Some(q) => r@ == count_reply_view(queue_name@, lookup_in(Some(q@), queue_name@)),
            None => r@ == count_reply_view(queue_name@, lookup_in(None, queue_name@)),
        },
{
    count_reply(queue_name.as_str(), snapshot_locked(queues, queue_name.as_str()))
}

/// The listing route, given what the lock gave: with the queues in hand, 200
/// and the messages of the queue `queue_name`, oldest first, or 404 where no
/// such queue exists; without them, 500. The queues stay as they are.
pub fn get_all_queue_messages_locked(
    queues: Option<&QueueMap>,
    queue_name: String,
) -> (r: Response)
    ensures
        match queues {
            Some(q) => r@ == messages_reply_view(queue_name@, lookup_in(Some(q@), queue_name@)),
            None => r@ == messages_reply_view(queue_name@, lookup_in(None, queue_name@)),
        },
{
    messages_reply(queue_name.as_str(), snapshot_locked(queues, queue_name.as_str()))
}

/// Looks a queue up without creating it: its messages, oldest first, or `None`
/// where no queue of that name exists.
pub fn get_queue_by_name(state: &QueueStore, queue_name: &str) -> (r: Result<
    Option<Vec<String>>,
    StoreError,
>)
    ensures
        exists|queues: Option<StoreModel>|
            lookup_view(r) == #[trigger] lookup_in(queues, queue_name@),
{
    state.snapshot(queue_name)
}

/// Appends the message of `payload` to the queue `queue_name`.
pub fn insert_message(
    state: &QueueStore,
    queue_name: String,
    payload: InsertMessage,
) -> (r: Response)
    ensures
        exists|queues: Option<StoreModel>| r@ == insert_reply_view(#[trigger] insert_in(queues)),
{
    let outcome = state.insert(queue_name.as_str(), payload.message);
    insert_reply(outcome)
}

/// Takes the oldest message off the queue `queue_name`.
pub fn pop_message(state: &QueueStore, queue_name: String) -> (r: Response)
    ensures
        exists|queues: Option<StoreModel>|
            r@ == pop_reply_view(#[trigger] pop_in(queues, queue_name@)),
{
    let outcome = state.pop(queue_name.as_str());
    pop_reply(outcome)
}

/// Counts the messages of the queue `queue_name`.
pub fn get_queue_msg_count(state: &QueueStore, queue_name: String) -> (r: Response)
    ensures
        exists|queues: Option<StoreModel>|
            r@ == count_reply_view(queue_name@, #[trigger] lookup_in(queues, queue_name@)),
{
    let outcome = get_queue_by_name(state, queue_name.as_str());
    count_reply(queue_name.as_str(), outcome)
}

/// Lists the messages of the queue `queue_name`, oldest first.
pub fn get_all_queue_messages(state: &QueueStore, queue_name: String) -> (r: Response)
    ensures
        exists|queues: Option<StoreModel>|
            r@ == messages_reply_view(queue_name@, #[trigger] lookup_in(queues, queue_name@)),
{
    let outcome = get_queue_by_name(state, queue_name.as_str());
    messages_reply(queue_name.as_str(), outcome)
}

} // verus!
