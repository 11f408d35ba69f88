//! Hands the transactions of the source to the driver, but for those that
//! the done-ledger lists.

use crate::entity_sender::PrepareTransaction;
use crate::record::{field_texts, RecordError};
use crate::transaction_request::TransactionRequest;
use std::collections::HashSet;
use vstd::prelude::*;

verus! {

broadcast use vstd::std_specs::hash::group_hash_axioms;

/// The error of the csv crate.
#[verifier::external_type_specification]
#[verifier::external_body]
pub struct ExCsvError(csv::Error);

/// The four numbers that the csv crate reads from the fields of a row, or
/// nothing where it reports an error.
pub uninterp spec fn csv_row_values(fields: Seq<Seq<char>>) -> Option<(u64, u64, u64, u64)>;

/// Calls `csv::StringRecord::deserialize` on a record made of `fields`,
/// for a tuple of four `u64`. The call reads no more than its argument:
/// what it returns is named [`csv_row_values`], with `None` for an error.
#[verifier::external_body]
fn deserialize_row(fields: &Vec<String>) -> (values: Result<(u64, u64, u64, u64), csv::Error>)
    ensures
        match values {
            Ok(numbers) => csv_row_values(field_texts(fields@)) == Some(numbers),
            Err(_) => csv_row_values(field_texts(fields@)) is None,
        },
{
    csv::StringRecord::from(fields.clone()).deserialize::<(u64, u64, u64, u64)>(None)
}

/// The transaction that four numbers of a row make, or the error of a row
/// that gave none.
pub open spec fn request_of(values: Option<(u64, u64, u64, u64)>) -> Result<
    TransactionRequest,
    RecordError,
> {
    match values {
        Some(numbers) => Ok(
            TransactionRequest::of_costs(numbers.0, numbers.1, numbers.2, numbers.3),
        ),
        None => Err(RecordError::Malformed),
    }
}

/// Makes a transaction of what the csv crate read from a row: id, hotel,
/// bank and airline cost, in that order.
pub fn request_from_values(values: Result<(u64, u64, u64, u64), csv::Error>) -> (request: Result<
    TransactionRequest,
    RecordError,
>)
    ensures
        request == request_of(
            match values {
                Ok(numbers) => Some(numbers),
                Err(_) => None,
            },
        ),
{
    match values {
        Ok(numbers) => Ok(TransactionRequest::new(numbers.0, numbers.1, numbers.2, numbers.3)),
        Err(_) => Err(RecordError::Malformed),
    }
}

/// A row of the transaction source, on its way to the dispatcher.
#[derive(Debug)]
pub struct ReceiveTransaction {
    pub transaction: Vec<String>,
}

impl ReceiveTransaction {
    pub fn new(transaction: Vec<String>) -> (received: Self)
        ensures
            received.transaction == transaction,
    {
        ReceiveTransaction { transaction }
    }

    /// Reads the row as a transaction.
    pub fn deserialize(&self) -> (request: Result<TransactionRequest, RecordError>)
        ensures
            request == request_of(csv_row_values(field_texts(self.transaction@))),
    {
        request_from_values(deserialize_row(&self.transaction))
    }
}

/// The ids of the done-ledger.
#[derive(Debug)]
pub struct SaveDoneTransactions {
    pub transactions: HashSet<u64>,
}

impl SaveDoneTransactions {
    pub fn new(transactions: HashSet<u64>) -> (save: Self)
        ensures
            save.transactions == transactions,
    {
        Self { transactions }
    }
}

/// What the dispatcher did with a row.
#[derive(Debug, Copy, Clone, PartialEq, Eq, Structural)]
pub enum Dispatch {
    /// The transaction goes to the driver.
    Prepare(PrepareTransaction),
    /// The transaction is done already: nothing is sent.
    AlreadyDone(u64),
    /// The row is no transaction: it is dropped.
    Dropped(RecordError),
}

/// What a dispatcher that knows `done` as done does with a row that was
/// read as `request`.
pub open spec fn dispatch_of(
    done: Set<u64>,
    request: Result<TransactionRequest, RecordError>,
) -> Dispatch {
    match request {
        Ok(transaction) => if done.contains(transaction.id()) {
            Dispatch::AlreadyDone(transaction.id())
        } else {
            Dispatch::Prepare(PrepareTransaction { transaction })
        },
        Err(e) => Dispatch::Dropped(e),
    }
}

/// The dispatcher of one pipeline.
pub struct TransactionDispatcher {
    done_transactions: HashSet<u64>,
}

impl View for TransactionDispatcher {
    type V = Set<u64>;

    /// The transactions that are known as done.
    closed spec fn view(&self) -> Set<u64> {
        self.done_transactions@
    }
}

impl TransactionDispatcher {
    /// A dispatcher that knows no transaction as done.
    pub fn new() -> (dispatcher: Self)
        ensures
            dispatcher@ == Set::<u64>::empty(),
    {
        TransactionDispatcher { done_transactions: HashSet::new() }
    }

    /// Decides about a transaction: it goes to the driver unless it is
    /// done already.
    pub fn dispatch(&self, request: Result<TransactionRequest, RecordError>) -> (dispatch: Dispatch)
        ensures
            dispatch == dispatch_of(self@, request),
    {
        match request {
            Ok(transaction) => {
                let id: u64 = transaction.get_transaction_id();
                if self.done_transactions.contains(&id) {
                    Dispatch::AlreadyDone(id)
                } else {
                    Dispatch::Prepare(PrepareTransaction::new(transaction))
                }
            },
            Err(e) => Dispatch::Dropped(e),
        }
    }

    /// Reads a row and decides about its transaction.
    pub fn receive_transaction(&self, raw_transaction: ReceiveTransaction) -> (dispatch: Dispatch)
        ensures
            dispatch == dispatch_of(
                self@,
                request_of(csv_row_values(field_texts(raw_transaction.transaction@))),
            ),
    {
        self.dispatch(raw_transaction.deserialize())
    }

    /// Takes the ids of the done-ledger in place of those known so far.
    pub fn save_done_transactions(&mut self, msg: SaveDoneTransactions)
        ensures
            final(self)@ == msg.transactions@,
    {
        self.done_transactions = msg.transactions;
    }
}

/// A transaction is sent to the driver if and only if its row was read and
/// the done-ledger does not list its id.
pub proof fn lemma_done_transactions_are_skipped(
    done: Set<u64>,
    request: Result<TransactionRequest, RecordError>,
)
    ensures
        dispatch_of(done, request) is Prepare <==> request is Ok && !done.contains(
            request->Ok_0.id(),
        ),
        dispatch_of(done, request) matches Dispatch::Prepare(sent) ==> sent.transaction
            == request->Ok_0,
{
}

} // verus!
