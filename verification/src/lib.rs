//! Retention rules and the retirement pipeline for a maildir archiver.
//!
//! The library decides which messages of a mail store are old enough to be
//! retired and drives, one message at a time, the steps that move a retired
//! message into the archive before it is removed from the store. Reading the
//! store, running the header filter and writing the archive are left to the
//! caller, who performs each requested action and reports how it went.

pub mod criteria;
pub mod header;
pub mod message;
pub mod options;
pub mod pipeline;
pub mod trace;
