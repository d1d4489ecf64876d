//! A safe, verified handle over a dynamically generated packet-filter
//! routine.
//!
//! A classic filter program — a sequence of compare-and-branch bytecode
//! instructions — is handed to a native compiler that turns it into
//! directly executable machine code. This crate owns everything around
//! that opaque step: the bit-exact layout in which instructions are
//! presented to the compiler, the lifecycle of the executable memory
//! region the compiler produces (populate writable, seal read+execute,
//! release exactly once), byte-for-byte duplication of a compiled
//! artifact without recompiling, and the accept/reject decision drawn
//! from the routine's verdict.

pub mod filter;
pub mod insn;
pub mod region;
