//! Batch image conversion: format resolution, glob expansion, input/output
//! pairing, output-name derivation, and a fail-fast conversion driver whose
//! decisions are verified; pixel decoding and encoding stay with `image`.
pub mod convert;
pub mod error;
pub mod expand;
pub mod format;
pub mod naming;
pub mod pairing;
pub mod path;
