//! Ingestion pipeline for market-data records: each raw record is normalised
//! into an envelope, given the next local sequence number and a capture time,
//! encoded as a MessagePack map and handed to the bus under a subject derived
//! from its symbol.
//!
//! The library holds the decisions; reading the source and talking to the bus
//! are the caller's part. [`driver::Driver::step`] takes what happened and
//! answers with what to log and what to do next.

pub mod codec;
pub mod config;
pub mod document;
pub mod driver;
pub mod envelope;
pub mod laws;
pub mod publisher;
pub mod sequencer;
pub mod source;
pub mod subject;
pub mod text;
