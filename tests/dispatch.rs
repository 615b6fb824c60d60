use ibapi::correlation::{Correlator, Reply};
use ibapi::dispatch::{classify_fields, dispatch, DispatchError, FieldCursor, Handler, Outcome};
use ibapi::kind::MessageKind;
use ibapi::queue::DeliveryQueue;

fn fields(items: &[&str]) -> Vec<String> {
    items.iter().map(|s| s.to_string()).collect()
}

struct Recorder {
    seen: Vec<(MessageKind, Vec<String>)>,
}

impl Handler for Recorder {
    fn handle(&mut self, kind: MessageKind, cursor: &mut FieldCursor) -> Result<(), String> {
        let mut rest = Vec::new();
        while let Some(f) = cursor.next_field() {
            rest.push(f);
        }
        self.seen.push((kind, rest));
        if kind == MessageKind::ErrMsg {
            Err("refused".to_string())
        } else {
            Ok(())
        }
    }
}

#[test]
fn each_known_tag_reaches_its_own_handler_entry() {
    let mut codes: Vec<i64> = (1..=21).collect();
    codes.extend([45, 46, 47]);
    codes.extend(49..=59);
    codes.extend(61..=107);
    let mut handler = Recorder { seen: Vec::new() };
    let mut queries = Correlator::new();
    for code in &codes {
        let outcome = dispatch(&mut handler, &mut queries, fields(&[&code.to_string(), "x"]));
        let kind = MessageKind::from_code(*code).unwrap();
        if kind == MessageKind::ErrMsg {
            assert_eq!(outcome, Outcome::HandlerFailed(kind, "refused".to_string()));
        } else {
            assert_eq!(outcome, Outcome::Handled(kind));
        }
    }
    let kinds: std::collections::HashSet<MessageKind> = handler.seen.iter().map(|s| s.0).collect();
    assert_eq!(kinds.len(), 82);
    assert!(handler.seen.iter().all(|s| s.1 == vec!["x".to_string()]));
}

#[test]
fn unknown_tag_is_reported_and_dispatch_goes_on() {
    let mut handler = Recorder { seen: Vec::new() };
    let mut queries = Correlator::new();
    let first = dispatch(&mut handler, &mut queries, fields(&["99999", "1"]));
    assert_eq!(first, Outcome::Unclassified(DispatchError::UnknownKind));
    let empty = dispatch(&mut handler, &mut queries, Vec::new());
    assert_eq!(empty, Outcome::Unclassified(DispatchError::Empty));
    let next = dispatch(&mut handler, &mut queries, fields(&["49", "1", "1700000000"]));
    assert_eq!(next, Outcome::Handled(MessageKind::CurrentTime));
    assert_eq!(handler.seen, vec![(MessageKind::CurrentTime, fields(&["1", "1700000000"]))]);
}

#[test]
fn contract_reply_goes_to_its_query_once() {
    let mut handler = Recorder { seen: Vec::new() };
    let mut queries = Correlator::new();
    queries.register(12).unwrap();
    let reply = fields(&["10", "8", "12", "payload"]);
    assert_eq!(dispatch(&mut handler, &mut queries, reply.clone()), Outcome::Correlated(12));
    let again = dispatch(&mut handler, &mut queries, reply.clone());
    assert_eq!(again, Outcome::Handled(MessageKind::ContractData));
    assert_eq!(queries.poll(12), Ok(Reply::Ready(reply)));
    assert_eq!(handler.seen.len(), 1);
}

#[test]
fn queue_dispatches_in_arrival_order() {
    let mut handler = Recorder { seen: Vec::new() };
    let mut queries = Correlator::new();
    let mut queue = DeliveryQueue::new();
    queue.push(fields(&["2", "a"]));
    queue.push(fields(&["1", "b"]));
    assert_eq!(queue.dispatch_next(&mut handler, &mut queries), Some(Outcome::Handled(MessageKind::TickSize)));
    assert_eq!(queue.dispatch_next(&mut handler, &mut queries), Some(Outcome::Handled(MessageKind::TickPrice)));
    assert_eq!(queue.dispatch_next(&mut handler, &mut queries), None);
}

#[test]
fn classification_errors() {
    assert_eq!(classify_fields(&Vec::new()), Err(DispatchError::Empty));
    assert_eq!(classify_fields(&fields(&["x"])), Err(DispatchError::UnknownKind));
    assert_eq!(classify_fields(&fields(&["+15"])), Ok(MessageKind::ManagedAccts));
}

#[test]
fn cursor_reads_forward_only() {
    let mut cursor = FieldCursor::new(fields(&["a", "b"]));
    assert_eq!(cursor.remaining(), 2);
    assert_eq!(cursor.next_field(), Some("a".to_string()));
    assert_eq!(cursor.next_field(), Some("b".to_string()));
    assert_eq!(cursor.next_field(), None);
    assert_eq!(cursor.remaining(), 0);
}

#[test]
fn outcome_description_carries_handler_error() {
    let o = Outcome::HandlerFailed(MessageKind::ErrMsg, "bad field".to_string());
    assert_eq!(o.describe(), "bad field");
    assert_eq!(Outcome::Handled(MessageKind::Pnl).describe(), "pnl");
    assert_eq!(Outcome::Correlated(4).describe(), "contract query answered");
    assert_eq!(Outcome::Unclassified(DispatchError::UnknownKind).describe(), "unknown message kind");
}
