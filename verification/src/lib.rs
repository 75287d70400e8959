//! A verified core for talking CoE (CANopen over EtherCAT) to a bus of slave
//! devices through an external master engine.
//!
//! The engine owns the wire: it enumerates slaves, carries mailbox SDO
//! transfers and exchanges the cyclic process-data image.  This crate holds
//! everything that is decided or computed around those transfers:
//!
//! * the value codec, turning raw bytes at a bit offset into typed values and
//!   back ([`codec`]);
//! * the object-dictionary model built from SDO information services
//!   ([`dict`]);
//! * the PDO-assignment resolver, which walks the sync-manager communication
//!   types and the PDO assignment objects and lays every mapped entry out at
//!   an exact byte and bit offset ([`pdo`]);
//! * the process-data accessor, reading and patching the cyclic image through
//!   that layout ([`master`]);
//! * the error taxonomy shared by all of them ([`error`]).
//!
//! Mailbox traffic itself is a blocking exchange with the engine; the resolver
//! is therefore written as a step machine: it hands out the next SDO address
//! to read and consumes the bytes the caller got back, so that every decision
//! taken between two reads is verified here.

pub mod al_status;
pub mod codec;
pub mod context;
pub mod dict;
pub mod error;
pub mod master;
pub mod pdo;
pub mod types;
