//! A dead man's switch: an owner registers an opaque payload with a check-in
//! interval and must ping before each deadline. A switch whose deadline passes
//! while armed is expired, the signal to reveal the payload. The owner may
//! disarm a switch for good, and close a disarmed switch once its deadline has
//! passed, reclaiming its deposit.
//!
//! Every operation is a function of the stored switches, the authenticated
//! caller and the current time, which the host supplies.

pub mod error;
pub mod events;
pub mod instructions;
pub mod laws;
pub mod pubkey;
pub mod registry;
pub mod switch;
