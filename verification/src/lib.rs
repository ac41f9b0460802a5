//! In-memory record layer of a blockchain archival pipeline.
//!
//! Raw chain data (signed blocks, storage changes, change-set events) is
//! wrapped into strongly typed, spec-versioned records, aggregated into batch
//! containers for bulk handoff, and extraction conversions derive one owned
//! extrinsic record per transaction of a block for parallel downstream
//! decoding. Every record is generic over a chain configuration: the
//! [`types::Substrate`] capability aggregate fixing that chain's concrete
//! hash, header, extrinsic and block-number types.

pub mod types;
