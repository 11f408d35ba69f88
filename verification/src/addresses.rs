//! The addresses of the replicas. Each pid has two: one for liveness
//! probes, one for the datagrams of the election.

use crate::decimal::{decimal_digits, push_decimal};
use vstd::prelude::*;

verus! {

/// Number of replicas.
pub const PROCESSES: u8 = 4;

/// The address on which replica `id` takes the datagrams of the election.
pub fn id_to_ctrladdr(id: usize) -> (address: String)
    ensures
        address@ == "localhost:1234"@ + decimal_digits(id as nat),
{
    let mut address: String = "localhost:1234".to_owned();
    push_decimal(&mut address, id as u64);
    address
}

/// The address on which replica `id` takes liveness probes.
pub fn id_to_dataaddr(id: usize) -> (address: String)
    ensures
        address@ == "localhost:1235"@ + decimal_digits(id as nat),
{
    let mut address: String = "localhost:1235".to_owned();
    push_decimal(&mut address, id as u64);
    address
}

} // verus!
