use transaction_handoff::consumers::{
    process_transaction, process_transaction_shared, report_line, save_to_database,
    send_notification, write_audit_log, Consumer,
};
use transaction_handoff::record::TransactionRecord;
use transaction_handoff::text::{push_amount, push_decimal};
use transaction_handoff::transfer::{check_routing, routing_plan, Access, Handoff, Routing};

const FIELDS: &str = "TransactionRecord { id: \"TX-2024-001\", amount: 1000.50, \
timestamp: 1704067200, from_account: \"ACC-001\", to_account: \"ACC-002\" }";

fn sample() -> TransactionRecord {
    TransactionRecord::new(
        "TX-2024-001".to_string(),
        100050,
        1704067200,
        "ACC-001".to_string(),
        "ACC-002".to_string(),
    )
}

fn amount(cents: u64) -> String {
    let mut s = String::new();
    push_amount(&mut s, cents);
    s
}

#[test]
fn new_keeps_fields() {
    let r = sample();
    assert_eq!(r.id, "TX-2024-001");
    assert_eq!(r.amount_cents, 100050);
    assert_eq!(r.timestamp, 1704067200);
    assert_eq!(r.from_account, "ACC-001");
    assert_eq!(r.to_account, "ACC-002");
}

#[test]
fn describe_lists_every_field() {
    assert_eq!(sample().describe(), FIELDS);
}

#[test]
fn amounts_keep_two_decimals() {
    assert_eq!(amount(100050), "1000.50");
    assert_eq!(amount(0), "0.00");
    assert_eq!(amount(5), "0.05");
    assert_eq!(amount(70), "0.70");
    assert_eq!(amount(100), "1.00");
    assert_eq!(amount(u64::MAX), "184467440737095516.15");
}

#[test]
fn decimals_of_edges() {
    let mut s = "n=".to_string();
    push_decimal(&mut s, 0);
    assert_eq!(s, "n=0");
    let mut s = String::new();
    push_decimal(&mut s, 10);
    assert_eq!(s, "10");
    let mut s = String::new();
    push_decimal(&mut s, u64::MAX);
    assert_eq!(s, "18446744073709551615");
}

#[test]
fn each_consumer_reports_its_line() {
    assert_eq!(save_to_database(sample()), format!("Saving to DB: {}", FIELDS));
    assert_eq!(send_notification(sample()), format!("Sending notification for: {}", FIELDS));
    assert_eq!(write_audit_log(sample()), format!("Audit log: {}", FIELDS));
}

#[test]
fn consuming_routing_refused_at_second_consumer() {
    let plan = routing_plan(Routing::Consuming);
    assert_eq!(plan, vec![Access::Transfer, Access::Transfer, Access::Transfer]);
    match check_routing(&plan) {
        Err(e) => {
            assert_eq!(e.moved_at, 0);
            assert_eq!(e.reused_at, vec![1, 2]);
        }
        Ok(()) => panic!("a routing that reuses a transferred record was accepted"),
    }
}

#[test]
fn consuming_routing_refused_at_run_time() {
    let mut slot = Handoff::new(sample());
    assert!(slot.live());
    let first = slot.take(0).ok().unwrap();
    assert_eq!(save_to_database(first), format!("Saving to DB: {}", FIELDS));
    assert!(!slot.live());
    match slot.take(1) {
        Err(e) => {
            assert_eq!(e.moved_at, 0);
            assert_eq!(e.reused_at, vec![1]);
        }
        Ok(_) => panic!("a consumed record was handed out again"),
    }
    match slot.take(2) {
        Err(e) => {
            assert_eq!(e.moved_at, 0);
            assert_eq!(e.reused_at, vec![2]);
        }
        Ok(_) => panic!("a consumed record was handed out again"),
    }
}

#[test]
fn read_after_take_refused() {
    let mut slot = Handoff::new(sample());
    assert_eq!(slot.read(0).ok().unwrap().describe(), FIELDS);
    assert!(slot.take(3).is_ok());
    match slot.read(4) {
        Err(e) => {
            assert_eq!(e.moved_at, 3);
            assert_eq!(e.reused_at, vec![4]);
        }
        Ok(_) => panic!("a consumed record was read"),
    }
}

#[test]
fn shared_routing_reports_three_times() {
    assert!(check_routing(&routing_plan(Routing::Shared)).is_ok());
    let tx = sample();
    let lines = process_transaction_shared(&tx);
    assert_eq!(
        lines,
        vec![
            format!("Saving to DB: {}", FIELDS),
            format!("Sending notification for: {}", FIELDS),
            format!("Audit log: {}", FIELDS),
        ]
    );
    assert_eq!(tx.describe(), FIELDS);
}

#[test]
fn duplicating_routing_reports_three_times() {
    assert!(check_routing(&routing_plan(Routing::Duplicating)).is_ok());
    let lines = process_transaction(sample());
    assert_eq!(
        lines,
        vec![
            format!("Saving to DB: {}", FIELDS),
            format!("Sending notification for: {}", FIELDS),
            format!("Audit log: {}", FIELDS),
        ]
    );
}

#[test]
fn duplicate_is_independent_copy() {
    let tx = sample();
    let copy = tx.duplicate();
    assert_eq!(save_to_database(copy), format!("Saving to DB: {}", FIELDS));
    assert_eq!(tx.describe(), FIELDS);
}

#[test]
fn distinct_ids_reported_apart() {
    let a = sample();
    let b = TransactionRecord::new(
        "TX-2024-002".to_string(),
        100050,
        1704067200,
        "ACC-001".to_string(),
        "ACC-002".to_string(),
    );
    for c in [Consumer::Persist, Consumer::Notify, Consumer::Audit] {
        let la = report_line(c, &a);
        let lb = report_line(c, &b);
        assert_ne!(la, lb);
        assert!(la.contains("TX-2024-001"));
        assert!(lb.contains("TX-2024-002"));
        assert!(!lb.contains("TX-2024-001"));
    }
}

#[test]
fn routings_without_reuse_accepted() {
    assert!(check_routing(&vec![]).is_ok());
    assert!(check_routing(&vec![Access::Transfer]).is_ok());
    assert!(check_routing(&vec![Access::Read, Access::Duplicate, Access::Transfer]).is_ok());
}

#[test]
fn reuse_after_middle_transfer_refused() {
    let plan = vec![Access::Read, Access::Transfer, Access::Read, Access::Duplicate];
    match check_routing(&plan) {
        Err(e) => {
            assert_eq!(e.moved_at, 1);
            assert_eq!(e.reused_at, vec![2, 3]);
        }
        Ok(()) => panic!("a read after a transfer was accepted"),
    }
}
