//! Normalization and batched bulk-load core for an organization-registry
//! snapshot: decoding source records from JSON, fanning each record out into
//! per-table row sets, and flushing those rows in fixed-size batches.

pub mod batch;
pub mod decode;
pub mod ident;
pub mod jsonval;
pub mod params;
pub mod records;
pub mod rows;
pub mod vectors;
