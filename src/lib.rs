//! Bit-precise access to memory registers.
//!
//! A register is an unsigned integer of a fixed width. The library models
//! each register as the sequence of its bits, position `0` being the least
//! significant, and states every operation over that model.
//!
//! - `register`: register widths (8, 16, 32, 64 bits and the platform
//!   word), bit indices, selection masks and bit orderings.
//! - `access`: the masked set, clear, invert and write operations over any
//!   storage with fetch primitives, for cells and atomics.
//! - `safe`: wrappers that allow reads through shared references and writes
//!   only through exclusive ones.
//! - `storage`: the cells and atomics themselves, reached through radium.
//! - `laws`: properties that relate the operations to one another.
//! - `bitlist`: owned bit sequences and their exchange with byte registers.

pub mod access;
pub mod bitlist;
pub mod laws;
pub mod register;
pub mod safe;
pub mod storage;
