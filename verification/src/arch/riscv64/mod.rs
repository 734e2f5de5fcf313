//! RISC-V, 64 bit.
pub mod sv39;
