//! The storage that registers live in, as verified code sees it: the
//! standard library's cells and atomics, read and written through radium.
//!
//! Verified code reaches each cell or atomic through an exclusive borrow or
//! a private field, so the value it holds is a function of the storage
//! value; each width names that function once.

use core::cell::Cell;
use core::sync::atomic::{AtomicU16, AtomicU32, AtomicU64, AtomicU8, AtomicUsize, Ordering};
use radium::Radium;
use vstd::prelude::*;

verus! {

/// The standard library's `Cell`, held opaquely.
#[verifier::external_type_specification]
#[verifier::external_body]
#[verifier::reject_recursive_types(T)]
pub struct ExCell<T: ?Sized>(Cell<T>);

/// The value held by a cell of an 8-bit register.
pub uninterp spec fn cell_u8(c: Cell<u8>) -> u8;

/// Relies on radium's `Radium::fetch_and` for `Cell<u8>`: stores the
/// conjunction of the held value and `v`, returns the held value.
#[verifier::external_body]
pub(crate) fn cell_u8_fetch_and(c: &mut Cell<u8>, v: u8) -> (r: u8)
    ensures
        r == cell_u8(*old(c)),
        cell_u8(*final(c)) == r & v,
{
    Radium::fetch_and(&*c, v, Ordering::Relaxed)
}

/// Relies on radium's `Radium::fetch_or` for `Cell<u8>`: stores the
/// disjunction of the held value and `v`, returns the held value.
#[verifier::external_body]
pub(crate) fn cell_u8_fetch_or(c: &mut Cell<u8>, v: u8) -> (r: u8)
    ensures
        r == cell_u8(*old(c)),
        cell_u8(*final(c)) == r | v,
{
    Radium::fetch_or(&*c, v, Ordering::Relaxed)
}

/// Relies on radium's `Radium::fetch_xor` for `Cell<u8>`: stores the
/// exclusive disjunction of the held value and `v`, returns the held value.
#[verifier::external_body]
pub(crate) fn cell_u8_fetch_xor(c: &mut Cell<u8>, v: u8) -> (r: u8)
    ensures
        r == cell_u8(*old(c)),
        cell_u8(*final(c)) == r ^ v,
{
    Radium::fetch_xor(&*c, v, Ordering::Relaxed)
}

/// Relies on radium's `Radium::store` for `Cell<u8>`: the cell then holds `v`.
#[verifier::external_body]
pub(crate) fn cell_u8_store(c: &mut Cell<u8>, v: u8)
    ensures
        cell_u8(*final(c)) == v,
{
    Radium::store(&*c, v, Ordering::Relaxed)
}

/// Relies on radium's `Radium::new` for `Cell<u8>`: a cell that holds `v`.
#[verifier::external_body]
pub(crate) fn cell_u8_new(v: u8) -> (r: Cell<u8>)
    ensures
        cell_u8(r) == v,
{
    <Cell<u8> as Radium>::new(v)
}

/// Relies on radium's `Radium::load` for `Cell<u8>`: the held value.
#[verifier::external_body]
pub(crate) fn cell_u8_load(c: &Cell<u8>) -> (r: u8)
    ensures
        r == cell_u8(*c),
{
    Radium::load(c, Ordering::Relaxed)
}

/// The value held by a cell of a 16-bit register.
pub uninterp spec fn cell_u16(c: Cell<u16>) -> u16;

/// Relies on radium's `Radium::fetch_and` for `Cell<u16>`: stores the
/// conjunction of the held value and `v`, returns the held value.
#[verifier::external_body]
pub(crate) fn cell_u16_fetch_and(c: &mut Cell<u16>, v: u16) -> (r: u16)
    ensures
        r == cell_u16(*old(c)),
        cell_u16(*final(c)) == r & v,
{
    Radium::fetch_and(&*c, v, Ordering::Relaxed)
}

/// Relies on radium's `Radium::fetch_or` for `Cell<u16>`: stores the
/// disjunction of the held value and `v`, returns the held value.
#[verifier::external_body]
pub(crate) fn cell_u16_fetch_or(c: &mut Cell<u16>, v: u16) -> (r: u16)
    ensures
        r == cell_u16(*old(c)),
        cell_u16(*final(c)) == r | v,
{
    Radium::fetch_or(&*c, v, Ordering::Relaxed)
}

/// Relies on radium's `Radium::fetch_xor` for `Cell<u16>`: stores the
/// exclusive disjunction of the held value and `v`, returns the held value.
#[verifier::external_body]
pub(crate) fn cell_u16_fetch_xor(c: &mut Cell<u16>, v: u16) -> (r: u16)
    ensures
        r == cell_u16(*old(c)),
        cell_u16(*final(c)) == r ^ v,
{
    Radium::fetch_xor(&*c, v, Ordering::Relaxed)
}

/// Relies on radium's `Radium::store` for `Cell<u16>`: the cell then holds `v`.
#[verifier::external_body]
pub(crate) fn cell_u16_store(c: &mut Cell<u16>, v: u16)
    ensures
        cell_u16(*final(c)) == v,
{
    Radium::store(&*c, v, Ordering::Relaxed)
}

/// Relies on radium's `Radium::new` for `Cell<u16>`: a cell that holds `v`.
#[verifier::external_body]
pub(crate) fn cell_u16_new(v: u16) -> (r: Cell<u16>)
    ensures
        cell_u16(r) == v,
{
    <Cell<u16> as Radium>::new(v)
}

/// Relies on radium's `Radium::load` for `Cell<u16>`: the held value.
#[verifier::external_body]
pub(crate) fn cell_u16_load(c: &Cell<u16>) -> (r: u16)
    ensures
        r == cell_u16(*c),
{
    Radium::load(c, Ordering::Relaxed)
}

/// The value held by a cell of a 32-bit register.
pub uninterp spec fn cell_u32(c: Cell<u32>) -> u32;

/// Relies on radium's `Radium::fetch_and` for `Cell<u32>`: stores the
/// conjunction of the held value and `v`, returns the held value.
#[verifier::external_body]
pub(crate) fn cell_u32_fetch_and(c: &mut Cell<u32>, v: u32) -> (r: u32)
    ensures
        r == cell_u32(*old(c)),
        cell_u32(*final(c)) == r & v,
{
    Radium::fetch_and(&*c, v, Ordering::Relaxed)
}

/// Relies on radium's `Radium::fetch_or` for `Cell<u32>`: stores the
/// disjunction of the held value and `v`, returns the held value.
#[verifier::external_body]
pub(crate) fn cell_u32_fetch_or(c: &mut Cell<u32>, v: u32) -> (r: u32)
    ensures
        r == cell_u32(*old(c)),
        cell_u32(*final(c)) == r | v,
{
    Radium::fetch_or(&*c, v, Ordering::Relaxed)
}

/// Relies on radium's `Radium::fetch_xor` for `Cell<u32>`: stores the
/// exclusive disjunction of the held value and `v`, returns the held value.
#[verifier::external_body]
pub(crate) fn cell_u32_fetch_xor(c: &mut Cell<u32>, v: u32) -> (r: u32)
    ensures
        r == cell_u32(*old(c)),
        cell_u32(*final(c)) == r ^ v,
{
    Radium::fetch_xor(&*c, v, Ordering::Relaxed)
}

/// Relies on radium's `Radium::store` for `Cell<u32>`: the cell then holds `v`.
#[verifier::external_body]
pub(crate) fn cell_u32_store(c: &mut Cell<u32>, v: u32)
    ensures
        cell_u32(*final(c)) == v,
{
    Radium::store(&*c, v, Ordering::Relaxed)
}

/// Relies on radium's `Radium::new` for `Cell<u32>`: a cell that holds `v`.
#[verifier::external_body]
pub(crate) fn cell_u32_new(v: u32) -> (r: Cell<u32>)
    ensures
        cell_u32(r) == v,
{
    <Cell<u32> as Radium>::new(v)
}

/// Relies on radium's `Radium::load` for `Cell<u32>`: the held value.
#[verifier::external_body]
pub(crate) fn cell_u32_load(c: &Cell<u32>) -> (r: u32)
    ensures
        r == cell_u32(*c),
{
    Radium::load(c, Ordering::Relaxed)
}

/// The value held by a cell of a 64-bit register.
pub uninterp spec fn cell_u64(c: Cell<u64>) -> u64;

/// Relies on radium's `Radium::fetch_and` for `Cell<u64>`: stores the
/// conjunction of the held value and `v`, returns the held value.
#[verifier::external_body]
pub(crate) fn cell_u64_fetch_and(c: &mut Cell<u64>, v: u64) -> (r: u64)
    ensures
        r == cell_u64(*old(c)),
        cell_u64(*final(c)) == r & v,
{
    Radium::fetch_and(&*c, v, Ordering::Relaxed)
}

/// Relies on radium's `Radium::fetch_or` for `Cell<u64>`: stores the
/// disjunction of the held value and `v`, returns the held value.
#[verifier::external_body]
pub(crate) fn cell_u64_fetch_or(c: &mut Cell<u64>, v: u64) -> (r: u64)
    ensures
        r == cell_u64(*old(c)),
        cell_u64(*final(c)) == r | v,
{
    Radium::fetch_or(&*c, v, Ordering::Relaxed)
}

/// Relies on radium's `Radium::fetch_xor` for `Cell<u64>`: stores the
/// exclusive disjunction of the held value and `v`, returns the held value.
#[verifier::external_body]
pub(crate) fn cell_u64_fetch_xor(c: &mut Cell<u64>, v: u64) -> (r: u64)
    ensures
        r == cell_u64(*old(c)),
        cell_u64(*final(c)) == r ^ v,
{
    Radium::fetch_xor(&*c, v, Ordering::Relaxed)
}

/// Relies on radium's `Radium::store` for `Cell<u64>`: the cell then holds `v`.
#[verifier::external_body]
pub(crate) fn cell_u64_store(c: &mut Cell<u64>, v: u64)
    ensures
        cell_u64(*final(c)) == v,
{
    Radium::store(&*c, v, Ordering::Relaxed)
}

/// Relies on radium's `Radium::new` for `Cell<u64>`: a cell that holds `v`.
#[verifier::external_body]
pub(crate) fn cell_u64_new(v: u64) -> (r: Cell<u64>)
    ensures
        cell_u64(r) == v,
{
    <Cell<u64> as Radium>::new(v)
}

/// Relies on radium's `Radium::load` for `Cell<u64>`: the held value.
#[verifier::external_body]
pub(crate) fn cell_u64_load(c: &Cell<u64>) -> (r: u64)
    ensures
        r == cell_u64(*c),
{
    Radium::load(c, Ordering::Relaxed)
}

/// The value held by an atomic 8-bit register.
pub uninterp spec fn atom_u8(a: AtomicU8) -> u8;

/// Relies on radium's `Radium::new` for `AtomicU8`: an atomic that holds `v`.
#[verifier::external_body]
pub(crate) fn atom_u8_new(v: u8) -> (r: AtomicU8)
    ensures
        atom_u8(r) == v,
{
    <AtomicU8 as Radium>::new(v)
}

/// Relies on radium's `Radium::load` for `AtomicU8`: the held value.
#[verifier::external_body]
pub(crate) fn atom_u8_load(a: &AtomicU8) -> (r: u8)
    ensures
        r == atom_u8(*a),
{
    Radium::load(a, Ordering::Relaxed)
}

/// Relies on radium's `Radium::fetch_and` for `AtomicU8`: stores the conjunction of
/// the held value and `v`, returns the held value.
#[verifier::external_body]
pub(crate) fn atom_u8_fetch_and(a: &mut AtomicU8, v: u8) -> (r: u8)
    ensures
        r == atom_u8(*old(a)),
        atom_u8(*final(a)) == r & v,
{
    Radium::fetch_and(&*a, v, Ordering::Relaxed)
}

/// Relies on radium's `Radium::fetch_or` for `AtomicU8`: stores the disjunction of
/// the held value and `v`, returns the held value.
#[verifier::external_body]
pub(crate) fn atom_u8_fetch_or(a: &mut AtomicU8, v: u8) -> (r: u8)
    ensures
        r == atom_u8(*old(a)),
        atom_u8(*final(a)) == r | v,
{
    Radium::fetch_or(&*a, v, Ordering::Relaxed)
}

/// Relies on radium's `Radium::fetch_xor` for `AtomicU8`: stores the exclusive disjunction of
/// the held value and `v`, returns the held value.
#[verifier::external_body]
pub(crate) fn atom_u8_fetch_xor(a: &mut AtomicU8, v: u8) -> (r: u8)
    ensures
        r == atom_u8(*old(a)),
        atom_u8(*final(a)) == r ^ v,
{
    Radium::fetch_xor(&*a, v, Ordering::Relaxed)
}

/// Relies on radium's `Radium::store` for `AtomicU8`: the atomic then holds `v`.
#[verifier::external_body]
pub(crate) fn atom_u8_store(a: &mut AtomicU8, v: u8)
    ensures
        atom_u8(*final(a)) == v,
{
    Radium::store(&*a, v, Ordering::Relaxed)
}

/// The value held by an atomic 16-bit register.
pub uninterp spec fn atom_u16(a: AtomicU16) -> u16;

/// Relies on radium's `Radium::new` for `AtomicU16`: an atomic that holds `v`.
#[verifier::external_body]
pub(crate) fn atom_u16_new(v: u16) -> (r: AtomicU16)
    ensures
        atom_u16(r) == v,
{
    <AtomicU16 as Radium>::new(v)
}

/// Relies on radium's `Radium::load` for `AtomicU16`: the held value.
#[verifier::external_body]
pub(crate) fn atom_u16_load(a: &AtomicU16) -> (r: u16)
    ensures
        r == atom_u16(*a),
{
    Radium::load(a, Ordering::Relaxed)
}

/// Relies on radium's `Radium::fetch_and` for `AtomicU16`: stores the conjunction of
/// the held value and `v`, returns the held value.
#[verifier::external_body]
pub(crate) fn atom_u16_fetch_and(a: &mut AtomicU16, v: u16) -> (r: u16)
    ensures
        r == atom_u16(*old(a)),
        atom_u16(*final(a)) == r & v,
{
    Radium::fetch_and(&*a, v, Ordering::Relaxed)
}

/// Relies on radium's `Radium::fetch_or` for `AtomicU16`: stores the disjunction of
/// the held value and `v`, returns the held value.
#[verifier::external_body]
pub(crate) fn atom_u16_fetch_or(a: &mut AtomicU16, v: u16) -> (r: u16)
    ensures
        r == atom_u16(*old(a)),
        atom_u16(*final(a)) == r | v,
{
    Radium::fetch_or(&*a, v, Ordering::Relaxed)
}

/// Relies on radium's `Radium::fetch_xor` for `AtomicU16`: stores the exclusive disjunction of
/// the held value and `v`, returns the held value.
#[verifier::external_body]
pub(crate) fn atom_u16_fetch_xor(a: &mut AtomicU16, v: u16) -> (r: u16)
    ensures
        r == atom_u16(*old(a)),
        atom_u16(*final(a)) == r ^ v,
{
    Radium::fetch_xor(&*a, v, Ordering::Relaxed)
}

/// Relies on radium's `Radium::store` for `AtomicU16`: the atomic then holds `v`.
#[verifier::external_body]
pub(crate) fn atom_u16_store(a: &mut AtomicU16, v: u16)
    ensures
        atom_u16(*final(a)) == v,
{
    Radium::store(&*a, v, Ordering::Relaxed)
}

/// The value held by an atomic 32-bit register.
pub uninterp spec fn atom_u32(a: AtomicU32) -> u32;

/// Relies on radium's `Radium::new` for `AtomicU32`: an atomic that holds `v`.
#[verifier::external_body]
pub(crate) fn atom_u32_new(v: u32) -> (r: AtomicU32)
    ensures
        atom_u32(r) == v,
{
    <AtomicU32 as Radium>::new(v)
}

/// Relies on radium's `Radium::load` for `AtomicU32`: the held value.
#[verifier::external_body]
pub(crate) fn atom_u32_load(a: &AtomicU32) -> (r: u32)
    ensures
        r == atom_u32(*a),
{
    Radium::load(a, Ordering::Relaxed)
}

/// Relies on radium's `Radium::fetch_and` for `AtomicU32`: stores the conjunction of
/// the held value and `v`, returns the held value.
#[verifier::external_body]
pub(crate) fn atom_u32_fetch_and(a: &mut AtomicU32, v: u32) -> (r: u32)
    ensures
        r == atom_u32(*old(a)),
        atom_u32(*final(a)) == r & v,
{
    Radium::fetch_and(&*a, v, Ordering::Relaxed)
}

/// Relies on radium's `Radium::fetch_or` for `AtomicU32`: stores the disjunction of
/// the held value and `v`, returns the held value.
#[verifier::external_body]
pub(crate) fn atom_u32_fetch_or(a: &mut AtomicU32, v: u32) -> (r: u32)
    ensures
        r == atom_u32(*old(a)),
        atom_u32(*final(a)) == r | v,
{
    Radium::fetch_or(&*a, v, Ordering::Relaxed)
}

/// Relies on radium's `Radium::fetch_xor` for `AtomicU32`: stores the exclusive disjunction of
/// the held value and `v`, returns the held value.
#[verifier::external_body]
pub(crate) fn atom_u32_fetch_xor(a: &mut AtomicU32, v: u32) -> (r: u32)
    ensures
        r == atom_u32(*old(a)),
        atom_u32(*final(a)) == r ^ v,
{
    Radium::fetch_xor(&*a, v, Ordering::Relaxed)
}

/// Relies on radium's `Radium::store` for `AtomicU32`: the atomic then holds `v`.
#[verifier::external_body]
pub(crate) fn atom_u32_store(a: &mut AtomicU32, v: u32)
    ensures
        atom_u32(*final(a)) == v,
{
    Radium::store(&*a, v, Ordering::Relaxed)
}

/// The value held by an atomic 64-bit register.
pub uninterp spec fn atom_u64(a: AtomicU64) -> u64;

/// Relies on radium's `Radium::new` for `AtomicU64`: an atomic that holds `v`.
#[verifier::external_body]
pub(crate) fn atom_u64_new(v: u64) -> (r: AtomicU64)
    ensures
        atom_u64(r) == v,
{
    <AtomicU64 as Radium>::new(v)
}

/// Relies on radium's `Radium::load` for `AtomicU64`: the held value.
#[verifier::external_body]
pub(crate) fn atom_u64_load(a: &AtomicU64) -> (r: u64)
    ensures
        r == atom_u64(*a),
{
    Radium::load(a, Ordering::Relaxed)
}

/// Relies on radium's `Radium::fetch_and` for `AtomicU64`: stores the conjunction of
/// the held value and `v`, returns the held value.
#[verifier::external_body]
pub(crate) fn atom_u64_fetch_and(a: &mut AtomicU64, v: u64) -> (r: u64)
    ensures
        r == atom_u64(*old(a)),
        atom_u64(*final(a)) == r & v,
{
    Radium::fetch_and(&*a, v, Ordering::Relaxed)
}

/// Relies on radium's `Radium::fetch_or` for `AtomicU64`: stores the disjunction of
/// the held value and `v`, returns the held value.
#[verifier::external_body]
pub(crate) fn atom_u64_fetch_or(a: &mut AtomicU64, v: u64) -> (r: u64)
    ensures
        r == atom_u64(*old(a)),
        atom_u64(*final(a)) == r | v,
{
    Radium::fetch_or(&*a, v, Ordering::Relaxed)
}

/// Relies on radium's `Radium::fetch_xor` for `AtomicU64`: stores the exclusive disjunction of
/// the held value and `v`, returns the held value.
#[verifier::external_body]
pub(crate) fn atom_u64_fetch_xor(a: &mut AtomicU64, v: u64) -> (r: u64)
    ensures
        r == atom_u64(*old(a)),
        atom_u64(*final(a)) == r ^ v,
{
    Radium::fetch_xor(&*a, v, Ordering::Relaxed)
}

/// Relies on radium's `Radium::store` for `AtomicU64`: the atomic then holds `v`.
#[verifier::external_body]
pub(crate) fn atom_u64_store(a: &mut AtomicU64, v: u64)
    ensures
        atom_u64(*final(a)) == v,
{
    Radium::store(&*a, v, Ordering::Relaxed)
}

/// The value held by a cell of a platform-word register.
pub uninterp spec fn cell_usize(c: Cell<usize>) -> usize;

/// Relies on radium's `Radium::fetch_and` for `Cell<usize>`: stores the
/// conjunction of the held value and `v`, returns the held value.
#[verifier::external_body]
pub(crate) fn cell_usize_fetch_and(c: &mut Cell<usize>, v: usize) -> (r: usize)
    ensures
        r == cell_usize(*old(c)),
        cell_usize(*final(c)) == r & v,
{
    Radium::fetch_and(&*c, v, Ordering::Relaxed)
}

/// Relies on radium's `Radium::fetch_or` for `Cell<usize>`: stores the
/// disjunction of the held value and `v`, returns the held value.
#[verifier::external_body]
pub(crate) fn cell_usize_fetch_or(c: &mut Cell<usize>, v: usize) -> (r: usize)
    ensures
        r == cell_usize(*old(c)),
        cell_usize(*final(c)) == r | v,
{
    Radium::fetch_or(&*c, v, Ordering::Relaxed)
}

/// Relies on radium's `Radium::fetch_xor` for `Cell<usize>`: stores the
/// exclusive disjunction of the held value and `v`, returns the held value.
#[verifier::external_body]
pub(crate) fn cell_usize_fetch_xor(c: &mut Cell<usize>, v: usize) -> (r: usize)
    ensures
        r == cell_usize(*old(c)),
        cell_usize(*final(c)) == r ^ v,
{
    Radium::fetch_xor(&*c, v, Ordering::Relaxed)
}

/// Relies on radium's `Radium::store` for `Cell<usize>`: the cell then holds `v`.
#[verifier::external_body]
pub(crate) fn cell_usize_store(c: &mut Cell<usize>, v: usize)
    ensures
        cell_usize(*final(c)) == v,
{
    Radium::store(&*c, v, Ordering::Relaxed)
}

/// Relies on radium's `Radium::new` for `Cell<usize>`: a cell that holds `v`.
#[verifier::external_body]
pub(crate) fn cell_usize_new(v: usize) -> (r: Cell<usize>)
    ensures
        cell_usize(r) == v,
{
    <Cell<usize> as Radium>::new(v)
}

/// Relies on radium's `Radium::load` for `Cell<usize>`: the held value.
#[verifier::external_body]
pub(crate) fn cell_usize_load(c: &Cell<usize>) -> (r: usize)
    ensures
        r == cell_usize(*c),
{
    Radium::load(c, Ordering::Relaxed)
}

/// The value held by an atomic platform-word register.
pub uninterp spec fn atom_usize(a: AtomicUsize) -> usize;

/// Relies on radium's `Radium::new` for `AtomicUsize`: an atomic that holds `v`.
#[verifier::external_body]
pub(crate) fn atom_usize_new(v: usize) -> (r: AtomicUsize)
    ensures
        atom_usize(r) == v,
{
    <AtomicUsize as Radium>::new(v)
}

/// Relies on radium's `Radium::load` for `AtomicUsize`: the held value.
#[verifier::external_body]
pub(crate) fn atom_usize_load(a: &AtomicUsize) -> (r: usize)
    ensures
        r == atom_usize(*a),
{
    Radium::load(a, Ordering::Relaxed)
}

/// Relies on radium's `Radium::fetch_and` for `AtomicUsize`: stores the conjunction of
/// the held value and `v`, returns the held value.
#[verifier::external_body]
pub(crate) fn atom_usize_fetch_and(a: &mut AtomicUsize, v: usize) -> (r: usize)
    ensures
        r == atom_usize(*old(a)),
        atom_usize(*final(a)) == r & v,
{
    Radium::fetch_and(&*a, v, Ordering::Relaxed)
}

/// Relies on radium's `Radium::fetch_or` for `AtomicUsize`: stores the disjunction of
/// the held value and `v`, returns the held value.
#[verifier::external_body]
pub(crate) fn atom_usize_fetch_or(a: &mut AtomicUsize, v: usize) -> (r: usize)
    ensures
        r == atom_usize(*old(a)),
        atom_usize(*final(a)) == r | v,
{
    Radium::fetch_or(&*a, v, Ordering::Relaxed)
}

/// Relies on radium's `Radium::fetch_xor` for `AtomicUsize`: stores the exclusive disjunction of
/// the held value and `v`, returns the held value.
#[verifier::external_body]
pub(crate) fn atom_usize_fetch_xor(a: &mut AtomicUsize, v: usize) -> (r: usize)
    ensures
        r == atom_usize(*old(a)),
        atom_usize(*final(a)) == r ^ v,
{
    Radium::fetch_xor(&*a, v, Ordering::Relaxed)
}

/// Relies on radium's `Radium::store` for `AtomicUsize`: the atomic then holds `v`.
#[verifier::external_body]
pub(crate) fn atom_usize_store(a: &mut AtomicUsize, v: usize)
    ensures
        atom_usize(*final(a)) == v,
{
    Radium::store(&*a, v, Ordering::Relaxed)
}

} // verus!
