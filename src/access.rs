//! Masked bit mutation over register-sized storage.
//!
//! `BitAccess` gives every storage that offers the three fetch primitives
//! (conjunction, disjunction, exclusive disjunction) and a plain store the
//! same ten bit-level operations. Each mutation is a single fetch on the
//! whole element, so writers of disjoint masks never undo each other.
//! Verified code reaches the storage through an exclusive borrow, and the
//! contracts say how the register's bits change.

use crate::register::{
    seq_clear, seq_flip, seq_set, seq_single, seq_write, BitIdx, BitMask, BitOrder, BitRegister,
};
use crate::storage::{
    atom_u16,
    atom_u16_fetch_and,
    atom_u16_fetch_or,
    atom_u16_fetch_xor,
    atom_u16_store,
    atom_u32,
    atom_u32_fetch_and,
    atom_u32_fetch_or,
    atom_u32_fetch_xor,
    atom_u32_store,
    atom_u64,
    atom_u64_fetch_and,
    atom_u64_fetch_or,
    atom_u64_fetch_xor,
    atom_u64_store,
    atom_u8,
    atom_u8_fetch_and,
    atom_u8_fetch_or,
    atom_u8_fetch_xor,
    atom_u8_store,
    atom_usize,
    atom_usize_fetch_and,
    atom_usize_fetch_or,
    atom_usize_fetch_xor,
    atom_usize_store,
    cell_u16,
    cell_u16_fetch_and,
    cell_u16_fetch_or,
    cell_u16_fetch_xor,
    cell_u16_store,
    cell_u32,
    cell_u32_fetch_and,
    cell_u32_fetch_or,
    cell_u32_fetch_xor,
    cell_u32_store,
    cell_u64,
    cell_u64_fetch_and,
    cell_u64_fetch_or,
    cell_u64_fetch_xor,
    cell_u64_store,
    cell_u8,
    cell_u8_fetch_and,
    cell_u8_fetch_or,
    cell_u8_fetch_xor,
    cell_u8_store,
    cell_usize,
    cell_usize_fetch_and,
    cell_usize_fetch_or,
    cell_usize_fetch_xor,
    cell_usize_store,
};
use core::cell::Cell;
use core::sync::atomic::{AtomicU16, AtomicU32, AtomicU64, AtomicU8, AtomicUsize};
use vstd::prelude::*;

verus! {

/// The bits that the one-bit mask of `index` under `O` selects.
pub open spec fn index_mask<R: BitRegister, O: BitOrder>(index: BitIdx<R>) -> Seq<bool> {
    seq_single(R::width(), O::position(R::width(), index@))
}

/// Which of the two writing operations a bulk writer resolved to.
#[derive(Clone, Copy, Debug, PartialEq, Eq, Structural)]
pub enum BitWriter {
    /// Writes `0` into the selected bits.
    ClearBits,
    /// Writes `1` into the selected bits.
    SetBits,
}

impl BitWriter {
    /// The writer that stores `value`.
    pub open spec fn of(value: bool) -> BitWriter {
        if value {
            BitWriter::SetBits
        } else {
            BitWriter::ClearBits
        }
    }

    /// The bit value this writer stores.
    pub open spec fn stores(self) -> bool {
        self is SetBits
    }

    /// Writes this writer's bit at `index` of `reg`: `set_bit` for `SetBits`,
    /// `clear_bit` for `ClearBits`.
    pub fn write_bit<A: BitAccess, O: BitOrder>(self, reg: &mut A, index: BitIdx<A::Item>)
        ensures
            final(reg).current().bits() == (if self.stores() {
                seq_set(old(reg).current().bits(), index_mask::<A::Item, O>(index))
            } else {
                seq_clear(old(reg).current().bits(), index_mask::<A::Item, O>(index))
            }),
    {
        match self {
            BitWriter::ClearBits => reg.clear_bit::<O>(index),
            BitWriter::SetBits => reg.set_bit::<O>(index),
        }
    }

    /// Writes this writer's bit into the bits of `reg` that `mask` selects:
    /// `set_bits` for `SetBits`, `clear_bits` for `ClearBits`.
    pub fn write_bits<A: BitAccess>(self, reg: &mut A, mask: BitMask<A::Item>)
        ensures
            final(reg).current().bits() == (if self.stores() {
                seq_set(old(reg).current().bits(), mask@)
            } else {
                seq_clear(old(reg).current().bits(), mask@)
            }),
    {
        match self {
            BitWriter::ClearBits => reg.clear_bits(mask),
            BitWriter::SetBits => reg.set_bits(mask),
        }
    }
}

/// Bit-level access to a memory element through its fetch primitives.
pub trait BitAccess: Sized {
    /// The register type held by the element.
    type Item: BitRegister;

    /// The register value the element holds.
    spec fn current(&self) -> Self::Item;

    /// Replaces the held value with its conjunction with `value`, returning
    /// the previous one.
    fn fetch_and(&mut self, value: Self::Item) -> (r: Self::Item)
        ensures
            r == old(self).current(),
            final(self).current() == r.spec_and(value),
    ;

    /// Replaces the held value with its disjunction with `value`, returning
    /// the previous one.
    fn fetch_or(&mut self, value: Self::Item) -> (r: Self::Item)
        ensures
            r == old(self).current(),
            final(self).current() == r.spec_or(value),
    ;

    /// Replaces the held value with its exclusive disjunction with `value`,
    /// returning the previous one.
    fn fetch_xor(&mut self, value: Self::Item) -> (r: Self::Item)
        ensures
            r == old(self).current(),
            final(self).current() == r.spec_xor(value),
    ;

    /// Replaces the held value with `value`.
    fn store(&mut self, value: Self::Item)
        ensures
            final(self).current() == value,
    ;

    /// Sets the bit at `index` (under the ordering `O`) to `0`; every other
    /// bit is unchanged.
    fn clear_bit<O: BitOrder>(&mut self, index: BitIdx<Self::Item>)
        ensures
            final(self).current().bits() == seq_clear(
                old(self).current().bits(),
                index_mask::<Self::Item, O>(index),
            ),
    {
        let mask = index.select::<O>();
        self.clear_bits(mask);
    }

    /// Sets every bit that `mask` selects to `0`; the others are unchanged.
    /// The mask is passed as a selection, never inverted by the caller.
    fn clear_bits(&mut self, mask: BitMask<Self::Item>)
        ensures
            final(self).current().bits() == seq_clear(old(self).current().bits(), mask@),
    {
        let inverse = mask.raw().complement();
        let prev = self.fetch_and(inverse);
        proof {
            Self::Item::lemma_and(prev, inverse);
            prev.lemma_bits_len();
            assert(self.current().bits() =~= seq_clear(prev.bits(), mask@));
        }
    }

    /// Sets the bit at `index` (under the ordering `O`) to `1`; every other
    /// bit is unchanged.
    fn set_bit<O: BitOrder>(&mut self, index: BitIdx<Self::Item>)
        ensures
            final(self).current().bits() == seq_set(
                old(self).current().bits(),
                index_mask::<Self::Item, O>(index),
            ),
    {
        let mask = index.select::<O>();
        self.set_bits(mask);
    }

    /// Sets every bit that `mask` selects to `1`; the others are unchanged.
    fn set_bits(&mut self, mask: BitMask<Self::Item>)
        ensures
            final(self).current().bits() == seq_set(old(self).current().bits(), mask@),
    {
        let m = mask.raw();
        let prev = self.fetch_or(m);
        proof {
            Self::Item::lemma_or(prev, m);
        }
    }

    /// Flips the bit at `index` (under the ordering `O`); every other bit is
    /// unchanged.
    fn invert_bit<O: BitOrder>(&mut self, index: BitIdx<Self::Item>)
        ensures
            final(self).current().bits() == seq_flip(
                old(self).current().bits(),
                index_mask::<Self::Item, O>(index),
            ),
    {
        let mask = index.select::<O>();
        self.invert_bits(mask);
    }

    /// Flips every bit that `mask` selects; the others are unchanged.
    fn invert_bits(&mut self, mask: BitMask<Self::Item>)
        ensures
            final(self).current().bits() == seq_flip(old(self).current().bits(), mask@),
    {
        let m = mask.raw();
        let prev = self.fetch_xor(m);
        proof {
            Self::Item::lemma_xor(prev, m);
        }
    }

    /// Writes `value` into the bit at `index` (under the ordering `O`); every
    /// other bit is unchanged.
    fn write_bit<O: BitOrder>(&mut self, index: BitIdx<Self::Item>, value: bool)
        ensures
            final(self).current().bits() == seq_write(
                old(self).current().bits(),
                index_mask::<Self::Item, O>(index),
                value,
            ),
    {
        let mask = index.select::<O>();
        self.write_bits(mask, value);
    }

    /// Writes `value` into every bit that `mask` selects; the others are
    /// unchanged.
    fn write_bits(&mut self, mask: BitMask<Self::Item>, value: bool)
        ensures
            final(self).current().bits() == seq_write(old(self).current().bits(), mask@, value),
    {
        proof {
            old(self).current().lemma_bits_len();
            mask.value().lemma_bits_len();
        }
        if value {
            self.set_bits(mask);
            assert(self.current().bits() =~= seq_write(old(self).current().bits(), mask@, value));
        } else {
            self.clear_bits(mask);
            assert(self.current().bits() =~= seq_write(old(self).current().bits(), mask@, value));
        }
    }

    /// Resolves the choice between `clear_bit` and `set_bit` once, for
    /// callers that write the same bit value into many elements.
    fn get_writer<O: BitOrder>(value: bool) -> (r: BitWriter)
        ensures
            r == BitWriter::of(value),
    {
        if value {
            BitWriter::SetBits
        } else {
            BitWriter::ClearBits
        }
    }

    /// Resolves the choice between `clear_bits` and `set_bits` once, for
    /// callers that write the same bit value into many elements.
    fn get_writers(value: bool) -> (r: BitWriter)
        ensures
            r == BitWriter::of(value),
    {
        if value {
            BitWriter::SetBits
        } else {
            BitWriter::ClearBits
        }
    }

    /// Overwrites the whole element with `value`, masks aside. The caller
    /// must own every bit of the element, or build `value` so that it keeps
    /// the bits it does not own.
    fn store_value(&mut self, value: Self::Item)
        ensures
            final(self).current() == value,
    {
        self.store(value);
    }
}

impl BitAccess for Cell<u8> {
    type Item = u8;

    open spec fn current(&self) -> u8 {
        cell_u8(*self)
    }

    fn fetch_and(&mut self, value: u8) -> (r: u8) {
        let r = cell_u8_fetch_and(self, value);
        assert(r.spec_and(value) == r & value);
        r
    }

    fn fetch_or(&mut self, value: u8) -> (r: u8) {
        let r = cell_u8_fetch_or(self, value);
        assert(r.spec_or(value) == r | value);
        r
    }

    fn fetch_xor(&mut self, value: u8) -> (r: u8) {
        let r = cell_u8_fetch_xor(self, value);
        assert(r.spec_xor(value) == r ^ value);
        r
    }

    fn store(&mut self, value: u8) {
        cell_u8_store(self, value)
    }
}

impl BitAccess for Cell<u16> {
    type Item = u16;

    open spec fn current(&self) -> u16 {
        cell_u16(*self)
    }

    fn fetch_and(&mut self, value: u16) -> (r: u16) {
        let r = cell_u16_fetch_and(self, value);
        assert(r.spec_and(value) == r & value);
        r
    }

    fn fetch_or(&mut self, value: u16) -> (r: u16) {
        let r = cell_u16_fetch_or(self, value);
        assert(r.spec_or(value) == r | value);
        r
    }

    fn fetch_xor(&mut self, value: u16) -> (r: u16) {
        let r = cell_u16_fetch_xor(self, value);
        assert(r.spec_xor(value) == r ^ value);
        r
    }

    fn store(&mut self, value: u16) {
        cell_u16_store(self, value)
    }
}

impl BitAccess for Cell<u32> {
    type Item = u32;

    open spec fn current(&self) -> u32 {
        cell_u32(*self)
    }

    fn fetch_and(&mut self, value: u32) -> (r: u32) {
        let r = cell_u32_fetch_and(self, value);
        assert(r.spec_and(value) == r & value);
        r
    }

    fn fetch_or(&mut self, value: u32) -> (r: u32) {
        let r = cell_u32_fetch_or(self, value);
        assert(r.spec_or(value) == r | value);
        r
    }

    fn fetch_xor(&mut self, value: u32) -> (r: u32) {
        let r = cell_u32_fetch_xor(self, value);
        assert(r.spec_xor(value) == r ^ value);
        r
    }

    fn store(&mut self, value: u32) {
        cell_u32_store(self, value)
    }
}

impl BitAccess for Cell<u64> {
    type Item = u64;

    open spec fn current(&self) -> u64 {
        cell_u64(*self)
    }

    fn fetch_and(&mut self, value: u64) -> (r: u64) {
        let r = cell_u64_fetch_and(self, value);
        assert(r.spec_and(value) == r & value);
        r
    }

    fn fetch_or(&mut self, value: u64) -> (r: u64) {
        let r = cell_u64_fetch_or(self, value);
        assert(r.spec_or(value) == r | value);
        r
    }

    fn fetch_xor(&mut self, value: u64) -> (r: u64) {
        let r = cell_u64_fetch_xor(self, value);
        assert(r.spec_xor(value) == r ^ value);
        r
    }

    fn store(&mut self, value: u64) {
        cell_u64_store(self, value)
    }
}

impl BitAccess for AtomicU8 {
    type Item = u8;

    open spec fn current(&self) -> u8 {
        atom_u8(*self)
    }

    fn fetch_and(&mut self, value: u8) -> (r: u8) {
        let r = atom_u8_fetch_and(self, value);
        assert(r.spec_and(value) == r & value);
        r
    }

    fn fetch_or(&mut self, value: u8) -> (r: u8) {
        let r = atom_u8_fetch_or(self, value);
        assert(r.spec_or(value) == r | value);
        r
    }

    fn fetch_xor(&mut self, value: u8) -> (r: u8) {
        let r = atom_u8_fetch_xor(self, value);
        assert(r.spec_xor(value) == r ^ value);
        r
    }

    fn store(&mut self, value: u8) {
        atom_u8_store(self, value)
    }
}

impl BitAccess for AtomicU16 {
    type Item = u16;

    open spec fn current(&self) -> u16 {
        atom_u16(*self)
    }

    fn fetch_and(&mut self, value: u16) -> (r: u16) {
        let r = atom_u16_fetch_and(self, value);
        assert(r.spec_and(value) == r & value);
        r
    }

    fn fetch_or(&mut self, value: u16) -> (r: u16) {
        let r = atom_u16_fetch_or(self, value);
        assert(r.spec_or(value) == r | value);
        r
    }

    fn fetch_xor(&mut self, value: u16) -> (r: u16) {
        let r = atom_u16_fetch_xor(self, value);
        assert(r.spec_xor(value) == r ^ value);
        r
    }

    fn store(&mut self, value: u16) {
        atom_u16_store(self, value)
    }
}

impl BitAccess for AtomicU32 {
    type Item = u32;

    open spec fn current(&self) -> u32 {
        atom_u32(*self)
    }

    fn fetch_and(&mut self, value: u32) -> (r: u32) {
        let r = atom_u32_fetch_and(self, value);
        assert(r.spec_and(value) == r & value);
        r
    }

    fn fetch_or(&mut self, value: u32) -> (r: u32) {
        let r = atom_u32_fetch_or(self, value);
        assert(r.spec_or(value) == r | value);
        r
    }

    fn fetch_xor(&mut self, value: u32) -> (r: u32) {
        let r = atom_u32_fetch_xor(self, value);
        assert(r.spec_xor(value) == r ^ value);
        r
    }

    fn store(&mut self, value: u32) {
        atom_u32_store(self, value)
    }
}

impl BitAccess for AtomicU64 {
    type Item = u64;

    open spec fn current(&self) -> u64 {
        atom_u64(*self)
    }

    fn fetch_and(&mut self, value: u64) -> (r: u64) {
        let r = atom_u64_fetch_and(self, value);
        assert(r.spec_and(value) == r & value);
        r
    }

    fn fetch_or(&mut self, value: u64) -> (r: u64) {
        let r = atom_u64_fetch_or(self, value);
        assert(r.spec_or(value) == r | value);
        r
    }

    fn fetch_xor(&mut self, value: u64) -> (r: u64) {
        let r = atom_u64_fetch_xor(self, value);
        assert(r.spec_xor(value) == r ^ value);
        r
    }

    fn store(&mut self, value: u64) {
        atom_u64_store(self, value)
    }
}

impl BitAccess for Cell<usize> {
    type Item = usize;

    open spec fn current(&self) -> usize {
        cell_usize(*self)
    }

    fn fetch_and(&mut self, value: usize) -> (r: usize) {
        let r = cell_usize_fetch_and(self, value);
        assert(r.spec_and(value) == r & value);
        r
    }

    fn fetch_or(&mut self, value: usize) -> (r: usize) {
        let r = cell_usize_fetch_or(self, value);
        assert(r.spec_or(value) == r | value);
        r
    }

    fn fetch_xor(&mut self, value: usize) -> (r: usize) {
        let r = cell_usize_fetch_xor(self, value);
        assert(r.spec_xor(value) == r ^ value);
        r
    }

    fn store(&mut self, value: usize) {
        cell_usize_store(self, value)
    }
}

impl BitAccess for AtomicUsize {
    type Item = usize;

    open spec fn current(&self) -> usize {
        atom_usize(*self)
    }

    fn fetch_and(&mut self, value: usize) -> (r: usize) {
        let r = atom_usize_fetch_and(self, value);
        assert(r.spec_and(value) == r & value);
        r
    }

    fn fetch_or(&mut self, value: usize) -> (r: usize) {
        let r = atom_usize_fetch_or(self, value);
        assert(r.spec_or(value) == r | value);
        r
    }

    fn fetch_xor(&mut self, value: usize) -> (r: usize) {
        let r = atom_usize_fetch_xor(self, value);
        assert(r.spec_xor(value) == r ^ value);
        r
    }

    fn store(&mut self, value: usize) {
        atom_usize_store(self, value)
    }
}

} // verus!
