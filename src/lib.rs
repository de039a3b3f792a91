//! Conversion of a beacon-chain light-client sync step into the fixed record
//! that the on-chain step verifier takes as its public input.

pub mod header;
pub mod participation;
pub mod step;
