//! The three participants of a booking.

use vstd::prelude::*;

verus! {

/// A participant service that votes on one leg of a transaction.
#[derive(Debug, Copy, Clone, PartialEq, Eq, Hash, Structural)]
pub enum EntityType {
    Hotel,
    Bank,
    Airline,
}

} // verus!
