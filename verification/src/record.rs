//! A row of the transaction source, as the text of its fields.

use vstd::prelude::*;

verus! {

/// Why a row of the transaction source was dropped.
#[derive(Debug, Copy, Clone, PartialEq, Eq, Structural)]
pub enum RecordError {
    /// The row has no field.
    MissingId,
    /// The first field is no transaction id.
    InvalidId,
    /// The row is no transaction.
    Malformed,
}

/// The fields of a row as texts.
pub open spec fn field_texts(fields: Seq<String>) -> Seq<Seq<char>> {
    Seq::new(fields.len(), |i: int| fields[i]@)
}

/// Copies the fields of a row.
pub fn copy_fields(fields: &Vec<String>) -> (copy: Vec<String>)
    ensures
        field_texts(copy@) == field_texts(fields@),
{
    let mut copy: Vec<String> = Vec::new();
    let mut i: usize = 0;
    while i < fields.len()
        invariant
            i <= fields.len(),
            copy@.len() == i,
            forall|j: int| 0 <= j < i ==> copy@[j]@ == fields@[j]@,
        decreases fields.len() - i,
    {
        copy.push(fields[i].clone());
        i = i + 1;
    }
    copy
}

} // verus!
