//! The transaction record and the textual form in which consumers report it.
use vstd::prelude::*;
use crate::text::{amount_text, push_amount, push_decimal, decimal};

verus! {

/// One transfer between two accounts. The amount is held in hundredths of
/// the currency unit and the timestamp in seconds since the Unix epoch.
pub struct TransactionRecord {
    pub id: String,
    pub amount_cents: u64,
    pub timestamp: u64,
    pub from_account: String,
    pub to_account: String,
}

/// What a record holds, as plain values.
pub struct RecordView {
    pub id: Seq<char>,
    pub amount_cents: nat,
    pub timestamp: nat,
    pub from_account: Seq<char>,
    pub to_account: Seq<char>,
}

impl View for TransactionRecord {
    type V = RecordView;

    open spec fn view(&self) -> RecordView {
        RecordView {
            id: self.id@,
            amount_cents: self.amount_cents as nat,
            timestamp: self.timestamp as nat,
            from_account: self.from_account@,
            to_account: self.to_account@,
        }
    }
}

/// The field-by-field text of a record, up to and including the quote
/// that opens its identifier.
pub open spec fn record_head() -> Seq<char> {
    "TransactionRecord { id: \""@
}

/// The field-by-field text of a record after its identifier.
pub open spec fn record_tail(r: RecordView) -> Seq<char> {
    "\", amount: "@ + amount_text(r.amount_cents) + ", timestamp: "@ + decimal(r.timestamp)
        + ", from_account: \""@ + r.from_account + "\", to_account: \""@ + r.to_account
        + "\" }"@
}

/// The field-by-field text of a record.
pub open spec fn record_text(r: RecordView) -> Seq<char> {
    record_head() + r.id + record_tail(r)
}

impl TransactionRecord {
    /// Builds a record from its five fields, as given.
    pub fn new(
        id: String,
        amount_cents: u64,
        timestamp: u64,
        from_account: String,
        to_account: String,
    ) -> (r: TransactionRecord)
        ensures
            r@ == (RecordView {
                id: id@,
                amount_cents: amount_cents as nat,
                timestamp: timestamp as nat,
                from_account: from_account@,
                to_account: to_account@,
            }),
    {
        TransactionRecord { id, amount_cents, timestamp, from_account, to_account }
    }

    /// An independent copy of the record, with the same field values.
    pub fn duplicate(&self) -> (r: TransactionRecord)
        ensures
            r@ == self@,
    {
        TransactionRecord {
            id: self.id.clone(),
            amount_cents: self.amount_cents,
            timestamp: self.timestamp,
            from_account: self.from_account.clone(),
            to_account: self.to_account.clone(),
        }
    }

    /// Appends the field-by-field text of the record to `s`.
    pub fn write_fields(&self, s: &mut String)
        ensures
            final(s)@ == old(s)@ + record_text(self@),
    {
        s.append("TransactionRecord { id: \"");
        s.append(self.id.as_str());
        s.append("\", amount: ");
        push_amount(s, self.amount_cents);
        s.append(", timestamp: ");
        push_decimal(s, self.timestamp);
        s.append(", from_account: \"");
        s.append(self.from_account.as_str());
        s.append("\", to_account: \"");
        s.append(self.to_account.as_str());
        s.append("\" }");
        assert(final(s)@ =~= old(s)@ + record_text(self@));
    }

    /// The field-by-field text of the record.
    pub fn describe(&self) -> (r: String)
        ensures
            r@ == record_text(self@),
    {
        let mut s = String::new();
        self.write_fields(&mut s);
        assert(s@ =~= record_text(self@));
        s
    }
}

} // verus!
