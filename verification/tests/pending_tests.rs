use justviewer::pending::{copy_texts, PendingFiles};

fn texts(items: &[&str]) -> Vec<String> {
    items.iter().map(|s| s.to_string()).collect()
}

#[test]
fn new_queue_is_empty() {
    let pending = PendingFiles::new();
    assert_eq!(pending.len(), 0);
    assert_eq!(pending.get_opened_files(), Vec::<String>::new());
}

#[test]
fn batch_is_returned_in_order_exactly_once() {
    let mut pending = PendingFiles::new();
    pending.enqueue_all(&texts(&["A", "B", "C"]));
    assert_eq!(pending.get_opened_files(), texts(&["A", "B", "C"]));
    assert_eq!(pending.len(), 3);
}

#[test]
fn get_opened_files_keeps_the_queue() {
    let mut pending = PendingFiles::new();
    pending.enqueue_all(&texts(&["A", "B"]));
    assert_eq!(pending.get_opened_files(), texts(&["A", "B"]));
    assert_eq!(pending.get_opened_files(), texts(&["A", "B"]));
}

#[test]
fn enqueue_appends_at_the_end() {
    let mut pending = PendingFiles::new();
    pending.enqueue("A".to_string());
    pending.enqueue("B".to_string());
    pending.enqueue("A".to_string());
    assert_eq!(pending.get_opened_files(), texts(&["A", "B", "A"]));
}

#[test]
fn later_batch_follows_earlier_one() {
    let mut pending = PendingFiles::new();
    pending.enqueue_all(&texts(&["A", "B"]));
    pending.enqueue_all(&Vec::new());
    pending.enqueue_all(&texts(&["C"]));
    assert_eq!(pending.get_opened_files(), texts(&["A", "B", "C"]));
}

#[test]
fn clear_empties_the_queue_idempotently() {
    let mut pending = PendingFiles::new();
    pending.enqueue_all(&texts(&["A", "B", "C"]));
    pending.clear_opened_files();
    assert_eq!(pending.get_opened_files(), Vec::<String>::new());
    pending.clear_opened_files();
    assert_eq!(pending.get_opened_files(), Vec::<String>::new());
    assert_eq!(pending.len(), 0);
}

#[test]
fn clear_on_an_empty_queue_is_a_no_op() {
    let mut pending = PendingFiles::new();
    pending.clear_opened_files();
    assert_eq!(pending.len(), 0);
    pending.enqueue("A".to_string());
    assert_eq!(pending.get_opened_files(), texts(&["A"]));
}

#[test]
fn drain_all_hands_out_everything_and_clears() {
    let mut pending = PendingFiles::new();
    pending.enqueue_all(&texts(&["A", "B", "C"]));
    assert_eq!(pending.drain_all(), texts(&["A", "B", "C"]));
    assert_eq!(pending.len(), 0);
    assert_eq!(pending.drain_all(), Vec::<String>::new());
}

#[test]
fn copy_texts_copies_each_text() {
    assert_eq!(copy_texts(&texts(&["x", "", "y z"])), texts(&["x", "", "y z"]));
    assert_eq!(copy_texts(&Vec::new()), Vec::<String>::new());
}
