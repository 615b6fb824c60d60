use ibapi::accounts::{split_text, ManagedAccounts};
use ibapi::bootstrap::Bootstrap;
use ibapi::queue::DeliveryQueue;

fn fields(items: &[&str]) -> Vec<String> {
    items.iter().map(|s| s.to_string()).collect()
}

fn drain(queue: &mut DeliveryQueue) -> Vec<Vec<String>> {
    let mut out = Vec::new();
    while let Some(item) = queue.pop() {
        out.push(item);
    }
    out
}

#[test]
fn rotation_removes_only_the_target() {
    let mut queue = DeliveryQueue::new();
    let dummies: Vec<Vec<String>> = (0..5).map(|i| fields(&["1", "6", &i.to_string()])).collect();
    for d in &dummies[..3] {
        queue.push(d.clone());
    }
    queue.push(fields(&["15", "1", "DU1,DU2"]));
    for d in &dummies[3..] {
        queue.push(d.clone());
    }
    let mut boot = Bootstrap::new();
    queue.rotate(&mut boot);
    assert_eq!(drain(&mut queue), dummies);
    assert!(!boot.is_complete());
}

#[test]
fn bootstrap_scenario_finds_accounts_and_first_order_id() {
    let mut queue = DeliveryQueue::new();
    queue.push(fields(&["15", "1", "DU1111111,"]));
    queue.push(fields(&["9", "1", "100"]));
    let mut boot = Bootstrap::new();
    queue.rotate(&mut boot);
    assert!(queue.is_empty());
    assert!(boot.is_complete());
    let (accounts, first) = boot.finish().unwrap();
    assert_eq!(first, 100);
    assert_eq!(accounts.names(), vec!["DU1111111".to_string()]);
    assert!(accounts.contains("DU1111111"));
    assert!(!accounts.contains("DU1111111,"));
}

#[test]
fn bootstrap_waits_for_what_has_not_arrived() {
    let mut queue = DeliveryQueue::new();
    queue.push(fields(&["9", "1", "not a number"]));
    queue.push(fields(&["4", "2", "-1", "2104", "ok"]));
    let mut boot = Bootstrap::new();
    queue.rotate(&mut boot);
    assert!(!boot.is_complete());
    assert_eq!(queue.len(), 1);
    queue.push(fields(&["9", "1", "7"]));
    queue.push(fields(&["15", "1", "A,B,,A"]));
    queue.push(fields(&["15", "1", "C"]));
    queue.rotate(&mut boot);
    assert_eq!(drain(&mut queue), vec![fields(&["4", "2", "-1", "2104", "ok"]), fields(&["15", "1", "C"])]);
    let (accounts, first) = boot.finish().unwrap();
    assert_eq!(first, 7);
    assert_eq!(accounts.len(), 2);
    assert!(accounts.contains("A") && accounts.contains("B"));
}

#[test]
fn unfinished_bootstrap_gives_nothing() {
    assert!(Bootstrap::new().finish().is_err());
}

#[test]
fn accounts_from_several_fields() {
    let accounts = ManagedAccounts::from_fields(&fields(&["15", "1", "X,Y", "Z,", ""]));
    let mut names = accounts.names();
    names.sort();
    assert_eq!(names, vec!["X", "Y", "Z"]);
    assert_eq!(ManagedAccounts::from_fields(&fields(&["15", "1"])).len(), 0);
}

#[test]
fn split_text_keeps_empty_pieces() {
    assert_eq!(split_text("a,,b,", ','), vec!["a", "", "b", ""]);
    assert_eq!(split_text("", ','), vec![""]);
}
