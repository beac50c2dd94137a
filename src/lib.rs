//! Conversion of chunk data between two generations of a tagged binary
//! save format: version fingerprinting of a chunk and a schema downgrade.

pub mod downgrade;
pub mod error;
pub mod fingerprint;
pub mod ids;
pub mod nibble;
pub mod tag;
pub mod version;
