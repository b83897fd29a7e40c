use webgwas_backend::models::WebGWASRequestId;
use webgwas_backend::queue::JobQueue;

fn id(value: u128) -> WebGWASRequestId {
    WebGWASRequestId { value }
}

#[test]
fn new_queue_has_nothing_pending() {
    let mut queue = JobQueue::new();
    assert_eq!(queue.len(), 0);
    assert!(queue.is_empty());
    assert_eq!(queue.pop_oldest(), None);
    assert_eq!(queue.pop_newest(), None);
}

#[test]
fn oldest_request_is_served_first() {
    let mut queue = JobQueue::new();
    queue.push(id(10));
    queue.push(id(20));
    queue.push(id(30));
    assert_eq!(queue.len(), 3);
    assert_eq!(queue.pop_oldest(), Some(id(10)));
    assert_eq!(queue.pop_oldest(), Some(id(20)));
    assert_eq!(queue.pop_oldest(), Some(id(30)));
    assert_eq!(queue.pop_oldest(), None);
    assert!(queue.is_empty());
}

#[test]
fn newest_request_is_served_first() {
    let mut queue = JobQueue::new();
    queue.push(id(10));
    queue.push(id(20));
    queue.push(id(30));
    assert_eq!(queue.pop_newest(), Some(id(30)));
    assert_eq!(queue.pop_newest(), Some(id(20)));
    assert_eq!(queue.len(), 1);
    assert!(!queue.is_empty());
}

#[test]
fn both_ends_can_be_served() {
    let mut queue = JobQueue::new();
    queue.push(id(1));
    queue.push(id(2));
    queue.push(id(3));
    queue.push(id(4));
    assert_eq!(queue.pop_newest(), Some(id(4)));
    assert_eq!(queue.pop_oldest(), Some(id(1)));
    queue.push(id(5));
    assert_eq!(queue.pop_oldest(), Some(id(2)));
    assert_eq!(queue.pop_oldest(), Some(id(3)));
    assert_eq!(queue.pop_oldest(), Some(id(5)));
}

#[test]
fn identifiers_from_uuid_round_trip() {
    let minted = uuid::Uuid::from_u128(0x1234_5678_9abc_def0_1234_5678_9abc_def0);
    let mut queue = JobQueue::new();
    queue.push(id(minted.as_u128()));
    let taken = queue.pop_oldest().map(|taken| uuid::Uuid::from_u128(taken.value));
    assert_eq!(taken, Some(minted));
}
