//! Registers that can be read through a shared reference but written only
//! through an exclusive one, whatever storage backs them.

use crate::register::BitRegister;
use core::cell::Cell;
use core::sync::atomic::{AtomicU16, AtomicU32, AtomicU64, AtomicU8, AtomicUsize};
use crate::storage::{
    atom_u16,
    atom_u16_load,
    atom_u16_new,
    atom_u16_store,
    atom_u32,
    atom_u32_load,
    atom_u32_new,
    atom_u32_store,
    atom_u64,
    atom_u64_load,
    atom_u64_new,
    atom_u64_store,
    atom_u8,
    atom_u8_load,
    atom_u8_new,
    atom_u8_store,
    atom_usize,
    atom_usize_load,
    atom_usize_new,
    atom_usize_store,
    cell_u16,
    cell_u16_load,
    cell_u16_new,
    cell_u16_store,
    cell_u32,
    cell_u32_load,
    cell_u32_new,
    cell_u32_store,
    cell_u64,
    cell_u64_load,
    cell_u64_new,
    cell_u64_store,
    cell_u8,
    cell_u8_load,
    cell_u8_new,
    cell_u8_store,
    cell_usize,
    cell_usize_load,
    cell_usize_new,
    cell_usize_store,
};
use vstd::prelude::*;

verus! {

/// A register wrapper that permits reads through `&self` and writes only
/// through `&mut self`.
pub trait BitSafe: Sized {
    /// The register type held by the wrapper.
    type Mem: BitRegister;

    /// The register value the wrapper holds.
    spec fn held(&self) -> Self::Mem;

    /// Wraps `value`.
    fn new(value: Self::Mem) -> (r: Self)
        ensures
            r.held() == value,
    ;

    /// Reads the held value.
    fn load(&self) -> (r: Self::Mem)
        ensures
            r == self.held(),
    ;

    /// Replaces the held value; needs exclusive access.
    fn store(&mut self, value: Self::Mem)
        ensures
            final(self).held() == value,
    ;

    /// Unwraps the held value.
    fn value(self) -> (r: Self::Mem)
        ensures
            r == self.held(),
    {
        self.load()
    }
}

/// An 8-bit register in a single-threaded cell, written only through an
/// exclusive reference.
pub struct BitSafeCellU8 {
    inner: Cell<u8>,
}

impl BitSafe for BitSafeCellU8 {
    type Mem = u8;

    closed spec fn held(&self) -> u8 {
        cell_u8(self.inner)
    }

    fn new(value: u8) -> (r: Self) {
        BitSafeCellU8 { inner: cell_u8_new(value) }
    }

    fn load(&self) -> (r: u8) {
        cell_u8_load(&self.inner)
    }

    fn store(&mut self, value: u8) {
        cell_u8_store(&mut self.inner, value)
    }
}

/// An 8-bit register in an atomic, written only through an exclusive
/// reference.
pub struct BitSafeAtomU8 {
    inner: AtomicU8,
}

impl BitSafe for BitSafeAtomU8 {
    type Mem = u8;

    closed spec fn held(&self) -> u8 {
        atom_u8(self.inner)
    }

    fn new(value: u8) -> (r: Self) {
        BitSafeAtomU8 { inner: atom_u8_new(value) }
    }

    fn load(&self) -> (r: u8) {
        atom_u8_load(&self.inner)
    }

    fn store(&mut self, value: u8) {
        atom_u8_store(&mut self.inner, value)
    }
}

/// A 16-bit register in a single-threaded cell, written only through an
/// exclusive reference.
pub struct BitSafeCellU16 {
    inner: Cell<u16>,
}

impl BitSafe for BitSafeCellU16 {
    type Mem = u16;

    closed spec fn held(&self) -> u16 {
        cell_u16(self.inner)
    }

    fn new(value: u16) -> (r: Self) {
        BitSafeCellU16 { inner: cell_u16_new(value) }
    }

    fn load(&self) -> (r: u16) {
        cell_u16_load(&self.inner)
    }

    fn store(&mut self, value: u16) {
        cell_u16_store(&mut self.inner, value)
    }
}

/// A 16-bit register in an atomic, written only through an exclusive
/// reference.
pub struct BitSafeAtomU16 {
    inner: AtomicU16,
}

impl BitSafe for BitSafeAtomU16 {
    type Mem = u16;

    closed spec fn held(&self) -> u16 {
        atom_u16(self.inner)
    }

    fn new(value: u16) -> (r: Self) {
        BitSafeAtomU16 { inner: atom_u16_new(value) }
    }

    fn load(&self) -> (r: u16) {
        atom_u16_load(&self.inner)
    }

    fn store(&mut self, value: u16) {
        atom_u16_store(&mut self.inner, value)
    }
}

/// A 32-bit register in a single-threaded cell, written only through an
/// exclusive reference.
pub struct BitSafeCellU32 {
    inner: Cell<u32>,
}

impl BitSafe for BitSafeCellU32 {
    type Mem = u32;

    closed spec fn held(&self) -> u32 {
        cell_u32(self.inner)
    }

    fn new(value: u32) -> (r: Self) {
        BitSafeCellU32 { inner: cell_u32_new(value) }
    }

    fn load(&self) -> (r: u32) {
        cell_u32_load(&self.inner)
    }

    fn store(&mut self, value: u32) {
        cell_u32_store(&mut self.inner, value)
    }
}

/// A 32-bit register in an atomic, written only through an exclusive
/// reference.
pub struct BitSafeAtomU32 {
    inner: AtomicU32,
}

impl BitSafe for BitSafeAtomU32 {
    type Mem = u32;

    closed spec fn held(&self) -> u32 {
        atom_u32(self.inner)
    }

    fn new(value: u32) -> (r: Self) {
        BitSafeAtomU32 { inner: atom_u32_new(value) }
    }

    fn load(&self) -> (r: u32) {
        atom_u32_load(&self.inner)
    }

    fn store(&mut self, value: u32) {
        atom_u32_store(&mut self.inner, value)
    }
}

/// A 64-bit register in a single-threaded cell, written only through an
/// exclusive reference.
pub struct BitSafeCellU64 {
    inner: Cell<u64>,
}

impl BitSafe for BitSafeCellU64 {
    type Mem = u64;

    closed spec fn held(&self) -> u64 {
        cell_u64(self.inner)
    }

    fn new(value: u64) -> (r: Self) {
        BitSafeCellU64 { inner: cell_u64_new(value) }
    }

    fn load(&self) -> (r: u64) {
        cell_u64_load(&self.inner)
    }

    fn store(&mut self, value: u64) {
        cell_u64_store(&mut self.inner, value)
    }
}

/// A 64-bit register in an atomic, written only through an exclusive
/// reference.
pub struct BitSafeAtomU64 {
    inner: AtomicU64,
}

impl BitSafe for BitSafeAtomU64 {
    type Mem = u64;

    closed spec fn held(&self) -> u64 {
        atom_u64(self.inner)
    }

    fn new(value: u64) -> (r: Self) {
        BitSafeAtomU64 { inner: atom_u64_new(value) }
    }

    fn load(&self) -> (r: u64) {
        atom_u64_load(&self.inner)
    }

    fn store(&mut self, value: u64) {
        atom_u64_store(&mut self.inner, value)
    }
}

/// A platform-word register in a single-threaded cell, written only through an
/// exclusive reference.
pub struct BitSafeCellUsize {
    inner: Cell<usize>,
}

impl BitSafe for BitSafeCellUsize {
    type Mem = usize;

    closed spec fn held(&self) -> usize {
        cell_usize(self.inner)
    }

    fn new(value: usize) -> (r: Self) {
        BitSafeCellUsize { inner: cell_usize_new(value) }
    }

    fn load(&self) -> (r: usize) {
        cell_usize_load(&self.inner)
    }

    fn store(&mut self, value: usize) {
        cell_usize_store(&mut self.inner, value)
    }
}

/// A platform-word register in an atomic, written only through an exclusive
/// reference.
pub struct BitSafeAtomUsize {
    inner: AtomicUsize,
}

impl BitSafe for BitSafeAtomUsize {
    type Mem = usize;

    closed spec fn held(&self) -> usize {
        atom_usize(self.inner)
    }

    fn new(value: usize) -> (r: Self) {
        BitSafeAtomUsize { inner: atom_usize_new(value) }
    }

    fn load(&self) -> (r: usize) {
        atom_usize_load(&self.inner)
    }

    fn store(&mut self, value: usize) {
        atom_usize_store(&mut self.inner, value)
    }
}

} // verus!
