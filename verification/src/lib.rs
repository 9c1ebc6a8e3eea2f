//! Codec for versioned save-data blobs.
//!
//! The library decodes a little-endian byte stream into a structured
//! `ProgressData` record and re-encodes any record as a canonical stream of
//! the highest schema revision. Field presence during decode is governed
//! solely by the stored schema-version integer; the encoder always writes
//! every field.

pub mod codec;
pub mod laws;
pub mod record;
pub mod wire;

pub use record::{DecodeError, Error, ProgressData, ShipUnlockId, UnlockId};
