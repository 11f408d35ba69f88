//! What goes into the two ledgers: the ids of the transactions that are
//! done, and the rows of the transactions that failed.

use crate::decimal::{decimal_digits, push_decimal};
use crate::record::field_texts;
use vstd::prelude::*;

verus! {

/// A transaction that was aborted, as the row it was read from.
#[derive(Debug)]
pub struct FailedTransaction {
    pub raw_transaction: Vec<String>,
}

impl FailedTransaction {
    pub fn new(raw_transaction: Vec<String>) -> (failed: Self)
        ensures
            failed.raw_transaction == raw_transaction,
    {
        FailedTransaction { raw_transaction }
    }
}

/// A transaction that was committed.
#[derive(Debug, Copy, Clone, PartialEq, Eq, Structural)]
pub struct RegisterDoneTransactionId {
    pub transaction_id: u64,
}

impl RegisterDoneTransactionId {
    pub fn new(transaction_id: u64) -> (done: Self)
        ensures
            done.transaction_id == transaction_id,
    {
        Self { transaction_id }
    }

    /// The row of the done-ledger for the transaction: its id in decimal.
    pub fn record(&self) -> (row: Vec<String>)
        ensures
            field_texts(row@) == seq![decimal_digits(self.transaction_id as nat)],
    {
        let mut id: String = String::new();
        push_decimal(&mut id, self.transaction_id);
        let mut row: Vec<String> = Vec::new();
        row.push(id);
        row
    }
}

/// The file of the done-ledger.
pub const DONE_TRANSACTIONS_PATH: &'static str = "done_transactions.csv";

/// The file of the failed-ledger.
pub const FAILED_TRANSACTIONS_PATH: &'static str = "failed_transactions.csv";

/// The header of the done-ledger.
pub fn done_header() -> (header: Vec<&'static str>)
    ensures
        header@.len() == 1,
        header@[0]@ == "id"@,
{
    let mut header: Vec<&'static str> = Vec::new();
    header.push("id");
    header
}

/// The header of the transaction source and of the failed-ledger.
pub fn transaction_header() -> (header: Vec<&'static str>)
    ensures
        header@.len() == 4,
        header@[0]@ == "id"@,
        header@[1]@ == "hotel_cost"@,
        header@[2]@ == "bank_cost"@,
        header@[3]@ == "airline_cost"@,
{
    let mut header: Vec<&'static str> = Vec::new();
    header.push("id");
    header.push("hotel_cost");
    header.push("bank_cost");
    header.push("airline_cost");
    header
}

} // verus!
