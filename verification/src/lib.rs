//! Protocol codec and exchange layer for UHF RFID Gen2 reader modules that
//! speak a framed binary protocol over a serial link.
//!
//! The crate performs no I/O. It builds and parses frames, decodes tag
//! records, and decides, event by event, what a driver has to write and read
//! next on the transport.
//!
//! * [`checksum`]: the checksum byte of a frame.
//! * [`codes`]: operation codes, status codes and the other closed tables.
//! * [`units`]: channel indexes and frequencies, raw and physical signal
//!   strength.
//! * [`frame`]: commands to bytes, bytes to responses.
//! * [`bits`]: what the bit reader used by the record decoders does.
//! * [`inventory`]: tag records and the inventory summary.
//! * [`read`]: replies to a read of tag memory.
//! * [`request`]: the command of each operation.
//! * [`reply`]: the meaning of each reply.
//! * [`session`]: the exchange as a state machine.
//! * [`error`]: what can go wrong.

pub mod bits;
pub mod checksum;
pub mod codes;
pub mod error;
pub mod frame;
pub mod inventory;
pub mod read;
pub mod reply;
pub mod request;
pub mod session;
pub mod units;
