//! The three consumers of a record and the orchestration that routes one
//! record through all of them. Each consumer computes the line it reports;
//! emitting that line is left to the caller.
use vstd::prelude::*;
use crate::record::{RecordView, TransactionRecord, record_head, record_tail, record_text};

verus! {

/// The consumers a record is routed through, in routing order.
#[derive(Clone, Copy, Debug, PartialEq, Eq, Structural)]
pub enum Consumer {
    Persist,
    Notify,
    Audit,
}

/// The words with which a consumer introduces the record it reports.
pub open spec fn consumer_prefix(c: Consumer) -> Seq<char> {
    match c {
        Consumer::Persist => "Saving to DB: "@,
        Consumer::Notify => "Sending notification for: "@,
        Consumer::Audit => "Audit log: "@,
    }
}

/// The line a consumer reports for a record.
pub open spec fn consumer_line(c: Consumer, r: RecordView) -> Seq<char> {
    consumer_prefix(c) + record_text(r)
}

/// The three lines reported when a record goes through every consumer.
pub open spec fn processing_log(r: RecordView) -> Seq<Seq<char>> {
    seq![
        consumer_line(Consumer::Persist, r),
        consumer_line(Consumer::Notify, r),
        consumer_line(Consumer::Audit, r),
    ]
}

/// The line consumer `c` reports for `record`, read without taking it.
pub fn report_line(c: Consumer, record: &TransactionRecord) -> (r: String)
    ensures
        r@ == consumer_line(c, record@),
{
    let mut s = match c {
        Consumer::Persist => String::from_str("Saving to DB: "),
        Consumer::Notify => String::from_str("Sending notification for: "),
        Consumer::Audit => String::from_str("Audit log: "),
    };
    record.write_fields(&mut s);
    assert(s@ =~= consumer_line(c, record@));
    s
}

/// Takes the record and returns the line that reports it being saved.
pub fn save_to_database(record: TransactionRecord) -> (r: String)
    ensures
        r@ == consumer_line(Consumer::Persist, record@),
{
    report_line(Consumer::Persist, &record)
}

/// Takes the record and returns the line that reports a notification for it.
pub fn send_notification(record: TransactionRecord) -> (r: String)
    ensures
        r@ == consumer_line(Consumer::Notify, record@),
{
    report_line(Consumer::Notify, &record)
}

/// Takes the record and returns the line that reports it in the audit log.
pub fn write_audit_log(record: TransactionRecord) -> (r: String)
    ensures
        r@ == consumer_line(Consumer::Audit, record@),
{
    report_line(Consumer::Audit, &record)
}

/// Routes the record through the three consumers in turn, handing each of
/// the first two an independent copy and the last one the record itself.
/// Returns the three reported lines, in order.
pub fn process_transaction(record: TransactionRecord) -> (r: Vec<String>)
    ensures
        r@.map_values(|s: String| s@) == processing_log(record@),
{
    let ghost v = record@;
    let mut lines: Vec<String> = Vec::new();
    lines.push(save_to_database(record.duplicate()));
    lines.push(send_notification(record.duplicate()));
    lines.push(write_audit_log(record));
    assert(lines@.map_values(|s: String| s@) =~= processing_log(v));
    lines
}

/// Routes the record through the three consumers in turn, each reading it
/// without taking it; the caller keeps the record. Returns the three
/// reported lines, in order.
pub fn process_transaction_shared(record: &TransactionRecord) -> (r: Vec<String>)
    ensures
        r@.map_values(|s: String| s@) == processing_log(record@),
{
    let mut lines: Vec<String> = Vec::new();
    lines.push(report_line(Consumer::Persist, record));
    lines.push(report_line(Consumer::Notify, record));
    lines.push(report_line(Consumer::Audit, record));
    assert(lines@.map_values(|s: String| s@) =~= processing_log(record@));
    lines
}

/// Routing a record through all three consumers gives three lines, one per
/// consumer in routing order, and each of them carries the record's own
/// field values and nothing else.
pub proof fn lemma_every_consumer_reports_same_fields(r: RecordView)
    ensures
        processing_log(r).len() == 3,
        forall|i: int|
            0 <= i < 3 ==> #[trigger] processing_log(r)[i] == consumer_prefix(
                [Consumer::Persist, Consumer::Notify, Consumer::Audit][i],
            ) + record_text(r),
{
}

/// Two records that agree on every field but their identifiers are never
/// reported alike: each consumer's line differs between them.
pub proof fn lemma_distinct_ids_never_conflated(a: RecordView, b: RecordView, c: Consumer)
    requires
        a.id != b.id,
        a.amount_cents == b.amount_cents,
        a.timestamp == b.timestamp,
        a.from_account == b.from_account,
        a.to_account == b.to_account,
    ensures
        consumer_line(c, a) != consumer_line(c, b),
{
    let p = consumer_prefix(c) + record_head();
    assert(record_tail(a) == record_tail(b));
    assert(consumer_line(c, a) =~= p + a.id + record_tail(a));
    assert(consumer_line(c, b) =~= p + b.id + record_tail(b));
    if consumer_line(c, a) == consumer_line(c, b) {
        assert(a.id =~= consumer_line(c, a).subrange(p.len() as int, (p.len() + a.id.len()) as int));
        assert(b.id =~= consumer_line(c, b).subrange(p.len() as int, (p.len() + b.id.len()) as int));
    }
}

} // verus!
