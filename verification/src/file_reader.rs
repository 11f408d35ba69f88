//! The reader of the transaction source. It keeps the row of every
//! transaction that goes to the driver, so that the row of one that is
//! aborted can go to the failed-ledger, and it reads the done-ledger.

use crate::decimal::{decimal_digits, decimal_u64, lemma_decimal_round_trip, parse_u64};
use crate::file_writer::FailedTransaction;
use crate::record::{copy_fields, field_texts, RecordError};
use crate::transaction_dispatcher::{
    csv_row_values, dispatch_of, request_of, Dispatch, ReceiveTransaction, SaveDoneTransactions,
    TransactionDispatcher,
};
use std::collections::{HashMap, HashSet};
use vstd::prelude::*;

verus! {

broadcast use vstd::std_specs::hash::group_hash_axioms;

/// Asks for the next row of the transaction source.
#[derive(Debug, Copy, Clone, PartialEq, Eq, Structural)]
pub struct ServeNextTransaction {}

/// Asks for the row of a transaction that was aborted.
#[derive(Debug, Copy, Clone, PartialEq, Eq, Structural)]
pub struct FindTransaction {
    pub transaction_id: u64,
}

impl FindTransaction {
    pub fn new(transaction_id: u64) -> (find: Self)
        ensures
            find.transaction_id == transaction_id,
    {
        FindTransaction { transaction_id }
    }
}

/// Asks for the ids of the done-ledger.
#[derive(Debug, Copy, Clone, PartialEq, Eq, Structural)]
pub struct ReadDoneTransactions {}

/// How reading the source goes on.
#[derive(Debug, Copy, Clone, PartialEq, Eq, Structural)]
pub enum ReadStatus {
    /// A row was handed out: read the next one.
    KeepReading,
    /// The source is at its end.
    Eof,
    /// A row was dropped: read the next one.
    ParseError(RecordError),
}

impl ReadStatus {
    /// Whether the source may hold another row.
    pub fn keep_reading(&self) -> (more: bool)
        ensures
            more == !(*self is Eof),
    {
        match self {
            ReadStatus::Eof => false,
            _ => true,
        }
    }
}

/// What the reader did with what the source gave.
#[derive(Debug, Copy, Clone, PartialEq, Eq, Structural)]
pub struct Served {
    pub status: ReadStatus,
    /// What the dispatcher decided about the row, if the reader handed it
    /// on.
    pub dispatch: Option<Dispatch>,
}

/// The id of a row: what its first field denotes.
pub open spec fn row_id(fields: Seq<Seq<char>>) -> Result<u64, RecordError> {
    if fields.len() == 0 {
        Err(RecordError::MissingId)
    } else {
        match decimal_u64(fields[0]) {
            Some(id) => Ok(id),
            None => Err(RecordError::InvalidId),
        }
    }
}

/// What a dispatcher that knows `done` as done decides about a row.
pub open spec fn dispatch_of_row(done: Set<u64>, row: Seq<Seq<char>>) -> Dispatch {
    dispatch_of(done, request_of(csv_row_values(row)))
}

/// What the reader answers for a row, with a dispatcher that knows `done`
/// as done.
pub open spec fn served_of(done: Set<u64>, row: Seq<Seq<char>>) -> Served {
    match row_id(row) {
        Err(e) => Served { status: ReadStatus::ParseError(e), dispatch: None },
        Ok(_) => Served {
            status: ReadStatus::KeepReading,
            dispatch: Some(dispatch_of_row(done, row)),
        },
    }
}

/// The rows that the reader keeps after it has taken a row.
pub open spec fn rows_after(
    rows: Map<u64, Seq<Seq<char>>>,
    done: Set<u64>,
    row: Seq<Seq<char>>,
) -> Map<u64, Seq<Seq<char>>> {
    match served_of(done, row).dispatch {
        Some(Dispatch::Prepare(sent)) => rows.insert(sent.transaction.id(), row),
        _ => rows,
    }
}

/// The ids that the rows of a done-ledger list. A row that is no id
/// lists none.
pub open spec fn done_ids(rows: Seq<Seq<char>>) -> Set<u64> {
    Set::new(
        |id: u64|
            exists|i: int| 0 <= i < rows.len() && decimal_u64(#[trigger] rows[i]) == Some(id),
    )
}

/// The reader of one pipeline.
pub struct FileReader {
    record_map: HashMap<u64, Vec<String>>,
}

impl View for FileReader {
    type V = Map<u64, Seq<Seq<char>>>;

    /// The rows of the transactions that went to the driver, by
    /// transaction id.
    closed spec fn view(&self) -> Map<u64, Seq<Seq<char>>> {
        Map::new(
            |id: u64| self.record_map@.contains_key(id),
            |id: u64| field_texts(self.record_map@[id]@),
        )
    }
}

impl FileReader {
    /// A reader that keeps no row.
    pub fn new() -> (reader: Self)
        ensures
            reader@ == Map::<u64, Seq<Seq<char>>>::empty(),
    {
        let reader = FileReader { record_map: HashMap::new() };
        assert(reader@ =~= Map::<u64, Seq<Seq<char>>>::empty());
        reader
    }

    /// Reads the id of a row from its first field.
    pub fn row_id(fields: &Vec<String>) -> (id: Result<u64, RecordError>)
        ensures
            id == row_id(field_texts(fields@)),
    {
        if fields.len() == 0 {
            return Err(RecordError::MissingId);
        }
        match parse_u64(fields[0].as_str()) {
            Some(id) => Ok(id),
            None => Err(RecordError::InvalidId),
        }
    }

    /// Takes what the source gave: a row, or nothing at its end. A row
    /// whose first field is an id goes to the dispatcher; any other row
    /// is dropped. The reader keeps the row of a transaction that the
    /// dispatcher sends to the driver, under the id of the transaction.
    pub fn serve_next_transaction(
        &mut self,
        msg: ServeNextTransaction,
        record: Option<Vec<String>>,
        dispatcher: &TransactionDispatcher,
    ) -> (served: Served)
        ensures
            match record {
                None => {
                    &&& served == (Served { status: ReadStatus::Eof, dispatch: None })
                    &&& final(self)@ == old(self)@
                },
                Some(fields) => {
                    &&& served == served_of(dispatcher@, field_texts(fields@))
                    &&& final(self)@ == rows_after(old(self)@, dispatcher@, field_texts(fields@))
                },
            },
    {
        let fields: Vec<String> = match record {
            Some(fields) => fields,
            None => {
                return Served { status: ReadStatus::Eof, dispatch: None };
            },
        };
        match Self::row_id(&fields) {
            Err(e) => Served { status: ReadStatus::ParseError(e), dispatch: None },
            Ok(_) => {
                let received = ReceiveTransaction::new(copy_fields(&fields));
                let dispatch: Dispatch = dispatcher.receive_transaction(received);
                match dispatch {
                    Dispatch::Prepare(sent) => {
                        self.record_map.insert(sent.transaction.get_transaction_id(), fields);
                        assert(self@ =~= old(self)@.insert(
                            sent.transaction.id(),
                            field_texts(fields@),
                        ));
                    },
                    _ => {},
                }
                Served { status: ReadStatus::KeepReading, dispatch: Some(dispatch) }
            },
        }
    }

    /// Gives up the row of a transaction that was aborted, for the
    /// failed-ledger. A transaction whose row is not held gives nothing.
    pub fn find_transaction(&mut self, msg: FindTransaction) -> (failed: Option<FailedTransaction>)
        ensures
            final(self)@ == old(self)@.remove(msg.transaction_id),
            failed is Some <==> old(self)@.contains_key(msg.transaction_id),
            failed matches Some(row) ==> field_texts(row.raw_transaction@) == old(
                self,
            )@[msg.transaction_id],
    {
        let found: Option<Vec<String>> = self.record_map.remove(&msg.transaction_id);
        assert(self@ =~= old(self)@.remove(msg.transaction_id));
        match found {
            Some(fields) => Some(FailedTransaction::new(fields)),
            None => None,
        }
    }

    /// Lets go of the row of a transaction that was committed.
    pub fn forget_transaction(&mut self, transaction_id: u64)
        ensures
            final(self)@ == old(self)@.remove(transaction_id),
    {
        self.record_map.remove(&transaction_id);
        assert(self@ =~= old(self)@.remove(transaction_id));
    }

    /// Reads the rows of the done-ledger. A row that is no id is skipped.
    /// Gives the ids for the dispatcher, or nothing if there is none.
    pub fn read_done_transactions(&self, msg: ReadDoneTransactions, rows: &Vec<String>) -> (save:
        Option<SaveDoneTransactions>)
        ensures
            save is Some <==> !done_ids(field_texts(rows@)).is_empty(),
            save matches Some(ids) ==> ids.transactions@ == done_ids(field_texts(rows@)),
    {
        let mut done_transactions: HashSet<u64> = HashSet::new();
        let mut i: usize = 0;
        let ghost texts = field_texts(rows@);
        assert(done_transactions@ =~= done_ids(texts.subrange(0, 0)));
        while i < rows.len()
            invariant
                i <= rows.len(),
                texts == field_texts(rows@),
                done_transactions@ == done_ids(texts.subrange(0, i as int)),
            decreases rows.len() - i,
        {
            let ghost before = texts.subrange(0, i as int);
            let ghost after = texts.subrange(0, i + 1);
            assert(after[i as int] == rows@[i as int]@);
            assert(forall|j: int| 0 <= j < i ==> before[j] == after[j]);
            match parse_u64(rows[i].as_str()) {
                Some(id) => {
                    done_transactions.insert(id);
                    assert(done_transactions@ =~= done_ids(after)) by {
                        assert(decimal_u64(after[i as int]) == Some(id));
                        assert forall|other: u64| done_ids(after).contains(other) implies done_ids(
                            before,
                        ).insert(id).contains(other) by {
                            let j = choose|j: int|
                                0 <= j < after.len() && decimal_u64(#[trigger] after[j]) == Some(
                                    other,
                                );
                            if j < i {
                                assert(decimal_u64(before[j]) == Some(other));
                            }
                        }
                        assert forall|other: u64|
                            done_ids(before).insert(id).contains(other) implies done_ids(
                            after,
                        ).contains(other) by {
                            if other != id {
                                let j = choose|j: int|
                                    0 <= j < before.len() && decimal_u64(#[trigger] before[j])
                                        == Some(other);
                                assert(decimal_u64(after[j]) == Some(other));
                            }
                        }
                    }
                },
                None => {
                    assert(done_transactions@ =~= done_ids(after)) by {
                        assert forall|other: u64| done_ids(after).contains(other) implies done_ids(
                            before,
                        ).contains(other) by {
                            let j = choose|j: int|
                                0 <= j < after.len() && decimal_u64(#[trigger] after[j]) == Some(
                                    other,
                                );
                            assert(j < i);
                            assert(decimal_u64(before[j]) == Some(other));
                        }
                        assert forall|other: u64| done_ids(before).contains(other) implies done_ids(
                            after,
                        ).contains(other) by {
                            let j = choose|j: int|
                                0 <= j < before.len() && decimal_u64(#[trigger] before[j]) == Some(
                                    other,
                                );
                            assert(decimal_u64(after[j]) == Some(other));
                        }
                    }
                },
            }
            i = i + 1;
        }
        assert(texts.subrange(0, i as int) =~= texts);
        if done_transactions.is_empty() {
            None
        } else {
            Some(SaveDoneTransactions::new(done_transactions))
        }
    }
}

/// A done-ledger lists every id that one of its rows holds in decimal, as
/// [`crate::file_writer::RegisterDoneTransactionId::record`] writes it.
pub proof fn lemma_written_ids_are_listed(rows: Seq<Seq<char>>, i: int, id: u64)
    requires
        0 <= i < rows.len(),
        rows[i] == decimal_digits(id as nat),
    ensures
        done_ids(rows).contains(id),
{
    lemma_decimal_round_trip(id);
}

} // verus!
