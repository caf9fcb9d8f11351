use lrs::filesystem::{Pending, PendingList};

#[test]
fn nodes_come_back_last_in_first_out() {
    let mut list = PendingList::new();
    list.queue_directory(Some("a"), None, false);
    list.queue_directory(Some("b"), None, false);
    list.queue_directory(Some("c"), None, false);
    assert_eq!(list.dequeue_directory().unwrap().get_name(), "c");
    assert_eq!(list.dequeue_directory().unwrap().get_name(), "b");
    assert_eq!(list.dequeue_directory().unwrap().get_name(), "a");
    assert!(list.dequeue_directory().is_none());
}

#[test]
fn peek_tells_of_a_second_node() {
    let mut list = PendingList::new();
    assert!(!list.has_next());
    assert!(!list.peek());
    list.queue_directory(Some("a"), None, true);
    assert!(list.has_next());
    assert!(!list.peek());
    list.queue_directory(Some("b"), Some("shown"), false);
    assert!(list.peek());
    let node = list.dequeue_directory().unwrap();
    assert_eq!(node.real_name.as_deref(), Some("shown"));
    assert!(!node.cli_arg);
    assert!(!list.peek());
    assert!(list.has_next());
}

#[test]
fn a_node_without_a_name_is_a_marker() {
    let mut list = PendingList::new();
    list.queue_directory(None, Some("dir"), false);
    let node = list.dequeue_directory().unwrap();
    assert!(node.is_marker());
    assert_eq!(node.name, None);
    assert_eq!(node.real_name.as_deref(), Some("dir"));
    let named = Pending::new(Some("x".to_string()), None, true);
    assert!(!named.is_marker());
    assert_eq!(named.get_name(), "x");
    assert!(named.cli_arg);
}
