//! Starts the transaction pipeline of a replica that has become leader.

use crate::entity_type::EntityType;
use vstd::prelude::*;

verus! {

/// Tells the bootstrapper that this replica leads and has to run the
/// transactions.
#[derive(Debug, Copy, Clone, PartialEq, Eq, Structural)]
pub struct RunAlGlobo {}

impl RunAlGlobo {
    pub fn new() -> (run: Self) {
        RunAlGlobo {  }
    }
}

/// Starts the pipeline of a replica, once.
pub struct Bootstrapper {
    file_path: String,
    running: bool,
}

impl Bootstrapper {
    /// The path of the transaction source.
    pub closed spec fn file_path(&self) -> Seq<char> {
        self.file_path@
    }

    /// Whether the pipeline was started.
    pub closed spec fn running(&self) -> bool {
        self.running
    }

    pub fn new(file_path: String) -> (bootstrapper: Self)
        ensures
            bootstrapper.file_path() == file_path@,
            !bootstrapper.running(),
    {
        Bootstrapper { file_path, running: false }
    }

    /// Starts the pipeline unless it runs already: the first call returns
    /// the path of the transaction source, every later call returns
    /// nothing, so that a replica that is elected again wires nothing
    /// twice.
    pub fn run_al_globo(&mut self, msg: RunAlGlobo) -> (source: Option<String>)
        ensures
            final(self).file_path() == old(self).file_path(),
            final(self).running(),
            source is Some <==> !old(self).running(),
            source matches Some(path) ==> path@ == old(self).file_path(),
    {
        if self.running {
            None
        } else {
            self.running = true;
            Some(self.file_path.clone())
        }
    }
}

/// The address on which the leader talks to the participants.
pub fn coordinator_address() -> (address: &'static str)
    ensures
        address@ == "localhost:8888"@,
{
    "localhost:8888"
}

/// The address of a participant.
pub fn entity_address(entity: EntityType) -> (address: &'static str)
    ensures
        address@ == match entity {
            EntityType::Hotel => "localhost:1234"@,
            EntityType::Bank => "localhost:1235"@,
            EntityType::Airline => "localhost:1236"@,
        },
{
    match entity {
        EntityType::Hotel => "localhost:1234",
        EntityType::Bank => "localhost:1235",
        EntityType::Airline => "localhost:1236",
    }
}

/// The participants, in the order in which they are addressed.
pub fn entities() -> (all: Vec<EntityType>)
    ensures
        all@ == seq![EntityType::Hotel, EntityType::Bank, EntityType::Airline],
{
    let mut all: Vec<EntityType> = Vec::new();
    all.push(EntityType::Hotel);
    all.push(EntityType::Bank);
    all.push(EntityType::Airline);
    all
}

} // verus!
