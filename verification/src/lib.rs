//! Two-phase commit of a booking across three participants, and the
//! bully election that decides which coordinator replica drives it.
//!
//! Every component is a plain state machine: it takes a message, updates
//! its own state and hands back what has to be sent or started. Sockets,
//! timers and files belong to the program around this library.

// The wire.
pub mod big_endian;
pub mod control_message;
pub mod entity_payload;
pub mod entity_type;
pub mod transaction_request;
pub mod transaction_response;
pub mod transaction_state;

// The two phases.
pub mod entity_receiver;
pub mod entity_sender;
pub mod participant;
pub mod pipeline;
pub mod statistics_handler;
pub mod transaction_coordinator;

// The source and the ledgers.
pub mod decimal;
pub mod file_reader;
pub mod file_writer;
pub mod record;
pub mod transaction_dispatcher;

// The election.
pub mod addresses;
pub mod beater_responder;
pub mod bootstrapper;
pub mod election;
pub mod ok_timeout_handler;
pub mod pinger_finder;
pub mod replica;

// The log.
pub mod entity_logger;
pub mod logger;

// The messenger of short requests.
pub mod entity_data;
pub mod entity_messenger;
pub mod transaction;
