use queue_service::queue_map::QueueMap;

fn text(s: &str) -> String {
    s.to_string()
}

#[test]
fn orders_scenario_on_the_queue_map() {
    let mut queues = QueueMap::new();
    queues.insert("orders", text("A"));
    queues.insert("orders", text("B"));
    assert_eq!(queues.list_all("orders"), vec![text("A"), text("B")]);
    assert_eq!(queues.pop("orders"), Some(text("A")));
    assert_eq!(queues.count("orders"), 1);
    assert_eq!(queues.pop("orders"), Some(text("B")));
    assert_eq!(queues.pop("orders"), None);
}

#[test]
fn pops_come_out_in_insertion_order() {
    let mut queues = QueueMap::new();
    let messages: Vec<String> = (0..50).map(|i| format!("m{}", i)).collect();
    for m in &messages {
        queues.insert("q", m.clone());
    }
    let mut popped = Vec::new();
    for _ in 0..messages.len() {
        popped.push(queues.pop("q").expect("a message for every insert"));
    }
    assert_eq!(popped, messages);
    assert_eq!(queues.pop("q"), None);
    assert_eq!(queues.count("q"), 0);
}

#[test]
fn pops_hand_out_the_backlog_before_the_new_messages() {
    let mut queues = QueueMap::new();
    queues.insert("q", text("old"));
    queues.insert("q", text("new1"));
    queues.insert("q", text("new2"));
    assert_eq!(queues.pop("q"), Some(text("old")));
    assert_eq!(queues.pop("q"), Some(text("new1")));
    assert_eq!(queues.pop("q"), Some(text("new2")));
}

#[test]
fn count_is_inserts_minus_pops() {
    let mut queues = QueueMap::new();
    for i in 0..7 {
        queues.insert("jobs", format!("job {}", i));
    }
    for _ in 0..3 {
        assert!(queues.pop("jobs").is_some());
    }
    assert_eq!(queues.count("jobs"), 4);
}

#[test]
fn count_follows_interleaved_inserts_and_pops() {
    let mut queues = QueueMap::new();
    queues.insert("jobs", text("a"));
    queues.insert("jobs", text("b"));
    assert_eq!(queues.pop("jobs"), Some(text("a")));
    queues.insert("jobs", text("c"));
    assert_eq!(queues.pop("jobs"), Some(text("b")));
    queues.insert("jobs", text("d"));
    queues.insert("jobs", text("e"));
    assert_eq!(queues.count("jobs"), 3);
    assert_eq!(queues.list_all("jobs"), vec![text("c"), text("d"), text("e")]);
}

#[test]
fn a_pop_on_an_empty_queue_does_not_count() {
    let mut queues = QueueMap::new();
    assert_eq!(queues.pop("jobs"), None);
    queues.insert("jobs", text("a"));
    assert_eq!(queues.count("jobs"), 1);
}

#[test]
fn an_unseen_name_reads_as_empty() {
    let mut queues = QueueMap::new();
    assert_eq!(queues.count("never"), 0);
    let mut queues = QueueMap::new();
    assert_eq!(queues.list_all("never"), Vec::<String>::new());
    let mut queues = QueueMap::new();
    assert_eq!(queues.pop("never"), None);
}

#[test]
fn listing_twice_gives_the_same() {
    let mut queues = QueueMap::new();
    queues.insert("q", text("x"));
    queues.insert("q", text("y"));
    let first = queues.list_all("q");
    let second = queues.list_all("q");
    assert_eq!(first, second);
    assert_eq!(first, vec![text("x"), text("y")]);
    assert_eq!(queues.count("q"), 2);
    assert_eq!(queues.count("q"), 2);
}

#[test]
fn listing_an_unseen_name_twice_gives_the_same() {
    let mut queues = QueueMap::new();
    let first = queues.list_all("fresh");
    let second = queues.list_all("fresh");
    assert_eq!(first, second);
    assert!(first.is_empty());
}

#[test]
fn the_empty_name_is_an_ordinary_name() {
    let mut queues = QueueMap::new();
    queues.insert("", text("for the empty name"));
    queues.insert("other", text("elsewhere"));
    assert_eq!(queues.count(""), 1);
    assert_eq!(queues.pop(""), Some(text("for the empty name")));
    assert_eq!(queues.pop(""), None);
    assert_eq!(queues.count("other"), 1);
}

#[test]
fn names_are_case_sensitive() {
    let mut queues = QueueMap::new();
    queues.insert("Orders", text("upper"));
    queues.insert("orders", text("lower"));
    assert_eq!(queues.list_all("Orders"), vec![text("upper")]);
    assert_eq!(queues.list_all("orders"), vec![text("lower")]);
}

#[test]
fn queues_do_not_disturb_each_other() {
    let mut queues = QueueMap::new();
    queues.insert("a", text("a1"));
    queues.insert("b", text("b1"));
    queues.insert("a", text("a2"));
    queues.insert("c", text("c1"));
    assert_eq!(queues.pop("b"), Some(text("b1")));
    assert_eq!(queues.list_all("a"), vec![text("a1"), text("a2")]);
    assert_eq!(queues.list_all("b"), Vec::<String>::new());
    assert_eq!(queues.list_all("c"), vec![text("c1")]);
    assert_eq!(queues.pop("a"), Some(text("a1")));
    assert_eq!(queues.pop("c"), Some(text("c1")));
    assert_eq!(queues.pop("a"), Some(text("a2")));
}

#[test]
fn every_operation_creates_the_queue() {
    let mut queues = QueueMap::new();
    assert!(!queues.has_queue("i"));
    queues.insert("i", text("m"));
    assert!(queues.has_queue("i"));

    assert!(!queues.has_queue("p"));
    assert_eq!(queues.pop("p"), None);
    assert!(queues.has_queue("p"));

    assert!(!queues.has_queue("l"));
    assert!(queues.list_all("l").is_empty());
    assert!(queues.has_queue("l"));

    assert!(!queues.has_queue("c"));
    assert_eq!(queues.count("c"), 0);
    assert!(queues.has_queue("c"));
}

#[test]
fn an_emptied_queue_stays() {
    let mut queues = QueueMap::new();
    queues.insert("q", text("only"));
    assert_eq!(queues.pop("q"), Some(text("only")));
    assert!(queues.has_queue("q"));
    assert_eq!(queues.snapshot("q"), Some(Vec::<String>::new()));
}

#[test]
fn a_snapshot_creates_nothing_and_takes_nothing() {
    let mut queues = QueueMap::new();
    assert_eq!(queues.snapshot("q"), None);
    assert!(!queues.has_queue("q"));
    queues.insert("q", text("1"));
    queues.insert("q", text("2"));
    assert_eq!(queues.snapshot("q"), Some(vec![text("1"), text("2")]));
    assert_eq!(queues.snapshot("q"), Some(vec![text("1"), text("2")]));
    assert_eq!(queues.count("q"), 2);
}

#[test]
fn a_message_may_be_any_string() {
    let mut queues = QueueMap::new();
    let odd = text("line one\nline \"two\" \\ \u{1F980} \u{0}");
    queues.insert("q", odd.clone());
    queues.insert("q", String::new());
    assert_eq!(queues.pop("q"), Some(odd));
    assert_eq!(queues.pop("q"), Some(String::new()));
    assert_eq!(queues.pop("q"), None);
}

#[test]
fn equal_messages_are_kept_apart() {
    let mut queues = QueueMap::new();
    queues.insert("q", text("same"));
    queues.insert("q", text("same"));
    assert_eq!(queues.count("q"), 2);
    assert_eq!(queues.pop("q"), Some(text("same")));
    assert_eq!(queues.count("q"), 1);
}
