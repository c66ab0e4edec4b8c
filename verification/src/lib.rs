//! A CHIP-8 virtual machine: instruction decoding, the processor state and its
//! fetch-decode-execute cycle, sprite drawing, key mapping and cycle pacing.
//!
//! Every executable function carries a contract over the mathematical model
//! in [`model`]; the general properties of that model are proved in [`laws`].

pub mod instruction;
pub mod model;
pub mod machine;
pub mod laws;
pub mod input;
pub mod timing;
