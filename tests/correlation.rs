use ibapi::correlation::{CorrelationError, Correlator, Reply};
use ibapi::queue::DeliveryQueue;

fn fields(items: &[&str]) -> Vec<String> {
    items.iter().map(|s| s.to_string()).collect()
}

#[test]
fn reply_resolves_exactly_once() {
    let mut queries = Correlator::new();
    assert_eq!(queries.register(7), Ok(()));
    assert_eq!(queries.poll(7), Ok(Reply::Waiting));
    let reply = fields(&["10", "8", "7", "AAPL"]);
    assert!(queries.deliver(7, reply.clone()));
    assert!(!queries.deliver(7, fields(&["10", "8", "7", "MSFT"])));
    assert_eq!(queries.poll(7), Ok(Reply::Ready(reply)));
    assert_eq!(queries.poll(7), Err(CorrelationError::Unknown));
    assert!(!queries.deliver(7, fields(&["10", "8", "7", "late"])));
}

#[test]
fn pending_id_cannot_be_reused() {
    let mut queries = Correlator::new();
    assert_eq!(queries.register(1), Ok(()));
    assert_eq!(queries.register(1), Err(CorrelationError::AlreadyPending));
}

#[test]
fn closing_fails_a_waiting_query() {
    let mut queries = Correlator::new();
    queries.register(3).unwrap();
    queries.close();
    assert_eq!(queries.poll(3), Err(CorrelationError::Closed));
    assert_eq!(queries.poll(3), Err(CorrelationError::Unknown));
}

#[test]
fn rotation_takes_only_awaited_contract_data() {
    let mut queries = Correlator::new();
    queries.register(5).unwrap();
    let mut queue = DeliveryQueue::new();
    queue.push(fields(&["1", "6", "1"]));
    queue.push(fields(&["10", "8", "6", "other"]));
    queue.push(fields(&["10", "8", "5", "mine"]));
    queue.push(fields(&["2", "6", "1"]));
    queue.rotate(&mut queries);
    assert_eq!(queue.len(), 3);
    assert_eq!(queue.pop(), Some(fields(&["1", "6", "1"])));
    assert_eq!(queue.pop(), Some(fields(&["10", "8", "6", "other"])));
    assert_eq!(queue.pop(), Some(fields(&["2", "6", "1"])));
    assert_eq!(queries.poll(5), Ok(Reply::Ready(fields(&["10", "8", "5", "mine"]))));
}
