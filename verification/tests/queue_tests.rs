use queue_service::queue_map::QueueMap;
use queue_service::store::{QueueStore, StoreError};
use queue_service::web::queue_endpoints::{
    count_reply, get_all_queue_messages, get_all_queue_messages_locked, get_queue_by_name,
    get_queue_msg_count, get_queue_msg_count_locked, health, insert_message,
    insert_message_locked, insert_reply, messages_reply, pop_message, pop_message_locked,
    pop_reply, InsertMessage,
};
use queue_service::web::response::StatusCode;
use serde_json::Value;

fn text(s: &str) -> String {
    s.to_string()
}

fn message(s: &str) -> InsertMessage {
    InsertMessage { message: text(s) }
}

#[test]
fn test_simple_base() {
    let state = QueueStore::new();

    let res = get_all_queue_messages(&state, text("first_queue"));
    assert_eq!(res.status, StatusCode::NOT_FOUND);
    assert_eq!(res.body, "{\"msg\":\"Queue first_queue could not be found\"}");

    let res = insert_message(&state, text("first_queue"), message("message for first queue"));
    assert_eq!(res.status, StatusCode::NO_CONTENT);
    assert_eq!(res.body, "{\"payload\":\"Message inserted\"}");

    let res = get_all_queue_messages(&state, text("first_queue"));
    assert_eq!(res.status, StatusCode::OK);
    assert_eq!(res.body, "{\"payload\":[\"message for first queue\"]}");
}

#[test]
fn the_health_text() {
    assert_eq!(health(), "Hello, World!");
}

#[test]
fn orders_scenario_through_the_handlers() {
    let state = QueueStore::new();
    assert_eq!(insert_message(&state, text("orders"), message("A")).status, StatusCode::NO_CONTENT);
    assert_eq!(insert_message(&state, text("orders"), message("B")).status, StatusCode::NO_CONTENT);

    let listed = get_all_queue_messages(&state, text("orders"));
    assert_eq!(listed.status, StatusCode::OK);
    assert_eq!(listed.body, "{\"payload\":[\"A\",\"B\"]}");

    let popped = pop_message(&state, text("orders"));
    assert_eq!(popped.status, StatusCode::OK);
    assert_eq!(popped.body, "{\"payload\":\"A\"}");

    let counted = get_queue_msg_count(&state, text("orders"));
    assert_eq!(counted.status, StatusCode::OK);
    assert_eq!(counted.body, "{\"payload\":{\"count\":1}}");

    let popped = pop_message(&state, text("orders"));
    assert_eq!(popped.status, StatusCode::OK);
    assert_eq!(popped.body, "{\"payload\":\"B\"}");

    let popped = pop_message(&state, text("orders"));
    assert_eq!(popped.status, StatusCode::OK);
    assert_eq!(popped.body, "{\"payload\":[]}");
}

#[test]
fn an_unknown_queue_is_not_found_by_the_reading_routes() {
    let state = QueueStore::new();
    let counted = get_queue_msg_count(&state, text("nothing"));
    assert_eq!(counted.status, StatusCode::NOT_FOUND);
    assert_eq!(counted.body, "{\"msg\":\"Queue nothing could not be found\"}");
    let listed = get_all_queue_messages(&state, text("nothing"));
    assert_eq!(listed.status, StatusCode::NOT_FOUND);
    assert_eq!(listed.body, "{\"msg\":\"Queue nothing could not be found\"}");
}

#[test]
fn the_reading_routes_create_nothing() {
    let state = QueueStore::new();
    assert_eq!(get_all_queue_messages(&state, text("q")).status, StatusCode::NOT_FOUND);
    assert_eq!(get_queue_msg_count(&state, text("q")).status, StatusCode::NOT_FOUND);
    assert_eq!(get_all_queue_messages(&state, text("q")).status, StatusCode::NOT_FOUND);
    assert_eq!(get_queue_by_name(&state, "q"), Ok(None));
}

#[test]
fn a_pop_creates_the_queue_it_names() {
    let state = QueueStore::new();
    let popped = pop_message(&state, text("late"));
    assert_eq!(popped.status, StatusCode::OK);
    assert_eq!(popped.body, "{\"payload\":[]}");

    let listed = get_all_queue_messages(&state, text("late"));
    assert_eq!(listed.status, StatusCode::OK);
    assert_eq!(listed.body, "{\"payload\":[]}");
    let counted = get_queue_msg_count(&state, text("late"));
    assert_eq!(counted.status, StatusCode::OK);
    assert_eq!(counted.body, "{\"payload\":{\"count\":0}}");
}

#[test]
fn the_name_in_the_not_found_message_is_escaped() {
    let state = QueueStore::new();
    let listed = get_all_queue_messages(&state, text("a\"b"));
    assert_eq!(listed.status, StatusCode::NOT_FOUND);
    assert_eq!(listed.body, "{\"msg\":\"Queue a\\\"b could not be found\"}");
    let parsed: Value = serde_json::from_str(&listed.body).unwrap();
    assert_eq!(
        parsed.get("msg"),
        Some(&Value::String(text("Queue a\"b could not be found")))
    );
}

#[test]
fn the_empty_queue_name_is_served() {
    let state = QueueStore::new();
    assert_eq!(insert_message(&state, String::new(), message("m")).status, StatusCode::NO_CONTENT);
    assert_eq!(get_queue_msg_count(&state, String::new()).body, "{\"payload\":{\"count\":1}}");
    assert_eq!(pop_message(&state, String::new()).body, "{\"payload\":\"m\"}");
}

#[test]
fn a_popped_message_is_escaped() {
    let state = QueueStore::new();
    insert_message(&state, text("q"), message("say \"hi\"\n"));
    assert_eq!(pop_message(&state, text("q")).body, "{\"payload\":\"say \\\"hi\\\"\\n\"}");
}

#[test]
fn the_lookup_finds_what_was_inserted() {
    let state = QueueStore::new();
    insert_message(&state, text("q"), message("1"));
    insert_message(&state, text("q"), message("2"));
    assert_eq!(get_queue_by_name(&state, "q"), Ok(Some(vec![text("1"), text("2")])));
    assert_eq!(get_queue_by_name(&state, "Q"), Ok(None));
}

#[test]
fn an_insert_is_answered_by_its_outcome() {
    let done = insert_reply(Ok(()));
    assert_eq!(done.status, StatusCode::NO_CONTENT);
    assert_eq!(done.body, "{\"payload\":\"Message inserted\"}");
    let failed = insert_reply(Err(StoreError::LockUnavailable));
    assert_eq!(failed.status, StatusCode::INTERNAL_SERVER_ERROR);
    assert_eq!(failed.body, "{\"msg\":\"Unable to add queue\"}");
}

#[test]
fn a_pop_is_answered_by_its_outcome() {
    let some = pop_reply(Ok(Some(text("A"))));
    assert_eq!(some.status, StatusCode::OK);
    assert_eq!(some.body, "{\"payload\":\"A\"}");
    let none = pop_reply(Ok(None));
    assert_eq!(none.status, StatusCode::OK);
    assert_eq!(none.body, "{\"payload\":[]}");
    let failed = pop_reply(Err(StoreError::LockUnavailable));
    assert_eq!(failed.status, StatusCode::INTERNAL_SERVER_ERROR);
    assert_eq!(failed.body, "{\"msg\":\"Unable to lock queue\"}");
}

#[test]
fn a_count_is_answered_by_its_outcome() {
    let some = count_reply("q", Ok(Some(vec![text("a"), text("b"), text("c")])));
    assert_eq!(some.status, StatusCode::OK);
    assert_eq!(some.body, "{\"payload\":{\"count\":3}}");
    let empty = count_reply("q", Ok(Some(Vec::new())));
    assert_eq!(empty.status, StatusCode::OK);
    assert_eq!(empty.body, "{\"payload\":{\"count\":0}}");
    let none = count_reply("q", Ok(None));
    assert_eq!(none.status, StatusCode::NOT_FOUND);
    assert_eq!(none.body, "{\"msg\":\"Queue q could not be found\"}");
    let failed = count_reply("q", Err(StoreError::LockUnavailable));
    assert_eq!(failed.status, StatusCode::INTERNAL_SERVER_ERROR);
    assert_eq!(failed.body, "{\"msg\":\"Unable to lock queue\"}");
}

#[test]
fn a_listing_is_answered_by_its_outcome() {
    let some = messages_reply("q", Ok(Some(vec![text("a"), text("b")])));
    assert_eq!(some.status, StatusCode::OK);
    assert_eq!(some.body, "{\"payload\":[\"a\",\"b\"]}");
    let none = messages_reply("q", Ok(None));
    assert_eq!(none.status, StatusCode::NOT_FOUND);
    assert_eq!(none.body, "{\"msg\":\"Queue q could not be found\"}");
    let failed = messages_reply("q", Err(StoreError::LockUnavailable));
    assert_eq!(failed.status, StatusCode::INTERNAL_SERVER_ERROR);
    assert_eq!(failed.body, "{\"msg\":\"Unable to lock queue\"}");
}

#[test]
fn concurrent_inserts_lose_and_repeat_nothing() {
    let runtime = tokio::runtime::Builder::new_multi_thread().worker_threads(4).build().unwrap();
    let state = QueueStore::new();
    let n = 200;
    runtime.block_on(async {
        let mut tasks = Vec::new();
        for i in 0..n {
            let handle = state.clone();
            tasks.push(tokio::spawn(async move {
                insert_message(&handle, text("shared"), message(&format!("message {}", i)))
            }));
        }
        for task in tasks {
            assert_eq!(task.await.unwrap().status, StatusCode::NO_CONTENT);
        }
    });
    assert_eq!(state.count("shared"), Ok(n));
    let mut found = state.list_all("shared").unwrap();
    found.sort();
    let mut expected: Vec<String> = (0..n).map(|i| format!("message {}", i)).collect();
    expected.sort();
    assert_eq!(found, expected);
}

#[test]
fn concurrent_pops_hand_out_each_message_once() {
    let runtime = tokio::runtime::Builder::new_multi_thread().worker_threads(4).build().unwrap();
    let state = QueueStore::new();
    let n = 100;
    for i in 0..n {
        assert_eq!(state.insert("shared", format!("message {}", i)), Ok(()));
    }
    let mut popped: Vec<String> = runtime.block_on(async {
        let mut tasks = Vec::new();
        for _ in 0..n {
            let handle = state.clone();
            tasks.push(tokio::spawn(async move { handle.pop("shared") }));
        }
        let mut popped = Vec::new();
        for task in tasks {
            popped.push(task.await.unwrap().unwrap().expect("one message for each pop"));
        }
        popped
    });
    popped.sort();
    let mut expected: Vec<String> = (0..n).map(|i| format!("message {}", i)).collect();
    expected.sort();
    assert_eq!(popped, expected);
    assert_eq!(state.pop("shared"), Ok(None));
}

#[test]
fn orders_scenario_on_the_queues_in_hand() {
    let mut queues = QueueMap::new();
    let r = insert_message_locked(Some(&mut queues), text("orders"), message("A"));
    assert_eq!(r.status, StatusCode::NO_CONTENT);
    assert_eq!(r.body, "{\"payload\":\"Message inserted\"}");
    let r = insert_message_locked(Some(&mut queues), text("orders"), message("B"));
    assert_eq!(r.status, StatusCode::NO_CONTENT);

    let r = get_all_queue_messages_locked(Some(&queues), text("orders"));
    assert_eq!(r.status, StatusCode::OK);
    assert_eq!(r.body, "{\"payload\":[\"A\",\"B\"]}");

    let r = pop_message_locked(Some(&mut queues), text("orders"));
    assert_eq!(r.status, StatusCode::OK);
    assert_eq!(r.body, "{\"payload\":\"A\"}");

    let r = get_queue_msg_count_locked(Some(&queues), text("orders"));
    assert_eq!(r.status, StatusCode::OK);
    assert_eq!(r.body, "{\"payload\":{\"count\":1}}");

    let r = pop_message_locked(Some(&mut queues), text("orders"));
    assert_eq!(r.body, "{\"payload\":\"B\"}");
    let r = pop_message_locked(Some(&mut queues), text("orders"));
    assert_eq!(r.status, StatusCode::OK);
    assert_eq!(r.body, "{\"payload\":[]}");
    assert_eq!(queues.count("orders"), 0);
}

#[test]
fn without_the_lock_every_route_answers_500() {
    let r = insert_message_locked(None, text("q"), message("m"));
    assert_eq!(r.status, StatusCode::INTERNAL_SERVER_ERROR);
    assert_eq!(r.body, "{\"msg\":\"Unable to add queue\"}");
    let r = pop_message_locked(None, text("q"));
    assert_eq!(r.status, StatusCode::INTERNAL_SERVER_ERROR);
    assert_eq!(r.body, "{\"msg\":\"Unable to lock queue\"}");
    let r = get_queue_msg_count_locked(None, text("q"));
    assert_eq!(r.status, StatusCode::INTERNAL_SERVER_ERROR);
    assert_eq!(r.body, "{\"msg\":\"Unable to lock queue\"}");
    let r = get_all_queue_messages_locked(None, text("q"));
    assert_eq!(r.status, StatusCode::INTERNAL_SERVER_ERROR);
    assert_eq!(r.body, "{\"msg\":\"Unable to lock queue\"}");
}

#[test]
fn the_reading_routes_leave_the_queues_in_hand_alone() {
    let mut queues = QueueMap::new();
    let r = get_queue_msg_count_locked(Some(&queues), text("q"));
    assert_eq!(r.status, StatusCode::NOT_FOUND);
    assert_eq!(r.body, "{\"msg\":\"Queue q could not be found\"}");
    let r = get_all_queue_messages_locked(Some(&queues), text("q"));
    assert_eq!(r.status, StatusCode::NOT_FOUND);
    assert_eq!(r.body, "{\"msg\":\"Queue q could not be found\"}");
    assert!(!queues.has_queue("q"));
    queues.insert("q", text("kept"));
    let r = get_all_queue_messages_locked(Some(&queues), text("q"));
    assert_eq!(r.body, "{\"payload\":[\"kept\"]}");
    assert_eq!(queues.list_all("q"), vec![text("kept")]);
}

#[test]
fn an_error_body_has_the_message_and_nothing_else() {
    let failed = insert_reply(Err(StoreError::LockUnavailable));
    let parsed: Value = serde_json::from_str(&failed.body).unwrap();
    assert_eq!(parsed.get("msg"), Some(&Value::String(text("Unable to add queue"))));
    assert_eq!(parsed.get("payload"), None);
    assert_eq!(parsed.as_object().map(|o| o.len()), Some(1));
}
