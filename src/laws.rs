//! Laws that hold of the access operations, stated over the bit models that
//! their contracts use.
//!
//! Every operation is a single fetch on the whole element, so the
//! commutation of operations under disjoint masks is what lets writers of
//! disjoint bit ranges share one element in any interleaving.

use crate::access::{index_mask, BitWriter};
use crate::register::{seq_clear, seq_flip, seq_set, seq_write, BitIdx, BitMask, BitOrder, BitRegister};
use vstd::prelude::*;

verus! {

/// Clearing the bits of a mask and then setting them leaves every selected
/// bit `1` and every other bit as it was before the clear.
pub proof fn clear_then_set<R: BitRegister>(before: R, mask: BitMask<R>)
    ensures
        seq_set(seq_clear(before.bits(), mask@), mask@).len() == R::width(),
        forall|i: int|
            0 <= i < R::width() ==> #[trigger] seq_set(seq_clear(before.bits(), mask@), mask@)[i]
                == (if mask@[i] {
                true
            } else {
                before.bits()[i]
            }),
{
    before.lemma_bits_len();
}

/// Inverting the same bit twice restores the register.
pub proof fn invert_bit_twice<R: BitRegister, O: BitOrder>(before: R, index: BitIdx<R>)
    ensures
        seq_flip(seq_flip(before.bits(), index_mask::<R, O>(index)), index_mask::<R, O>(index))
            == before.bits(),
{
    before.lemma_bits_len();
    assert(seq_flip(seq_flip(before.bits(), index_mask::<R, O>(index)), index_mask::<R, O>(index))
        =~= before.bits());
}

/// Inverting every bit twice restores the register.
pub proof fn invert_all_twice<R: BitRegister>(before: R)
    ensures
        seq_flip(
            seq_flip(before.bits(), Seq::new(R::width(), |i: int| true)),
            Seq::new(R::width(), |i: int| true),
        ) == before.bits(),
{
    before.lemma_bits_len();
    assert(seq_flip(
        seq_flip(before.bits(), Seq::new(R::width(), |i: int| true)),
        Seq::new(R::width(), |i: int| true),
    ) =~= before.bits());
}

/// Writing `1` under a mask is setting it, and writing `0` is clearing it.
pub proof fn write_is_set_or_clear<R: BitRegister>(before: R, mask: BitMask<R>)
    ensures
        seq_write(before.bits(), mask@, true) == seq_set(before.bits(), mask@),
        seq_write(before.bits(), mask@, false) == seq_clear(before.bits(), mask@),
{
    assert(seq_write(before.bits(), mask@, true) =~= seq_set(before.bits(), mask@));
    assert(seq_write(before.bits(), mask@, false) =~= seq_clear(before.bits(), mask@));
}

/// Writing `1` at an index is setting that bit, and writing `0` is clearing
/// it.
pub proof fn write_bit_is_set_or_clear<R: BitRegister, O: BitOrder>(before: R, index: BitIdx<R>)
    ensures
        seq_write(before.bits(), index_mask::<R, O>(index), true) == seq_set(
            before.bits(),
            index_mask::<R, O>(index),
        ),
        seq_write(before.bits(), index_mask::<R, O>(index), false) == seq_clear(
            before.bits(),
            index_mask::<R, O>(index),
        ),
{
    let m = index_mask::<R, O>(index);
    assert(seq_write(before.bits(), m, true) =~= seq_set(before.bits(), m));
    assert(seq_write(before.bits(), m, false) =~= seq_clear(before.bits(), m));
}

/// The writer resolved for a bit value stores that value, so applying it
/// is `set_bits` for `1` and `clear_bits` for `0`.
pub proof fn writer_stores_its_value(value: bool)
    ensures
        BitWriter::of(value).stores() == value,
        value ==> BitWriter::of(value) == BitWriter::SetBits,
        !value ==> BitWriter::of(value) == BitWriter::ClearBits,
{
}

/// Two masks that select no common bit.
pub open spec fn disjoint<R: BitRegister>(a: BitMask<R>, b: BitMask<R>) -> bool {
    forall|i: int| 0 <= i < R::width() ==> !(#[trigger] a@[i] && b@[i])
}

/// Writes under disjoint masks give the same register in either order.
pub proof fn disjoint_writes_commute<R: BitRegister>(
    before: R,
    a: BitMask<R>,
    va: bool,
    b: BitMask<R>,
    vb: bool,
)
    requires
        disjoint(a, b),
    ensures
        seq_write(seq_write(before.bits(), a@, va), b@, vb) == seq_write(
            seq_write(before.bits(), b@, vb),
            a@,
            va,
        ),
{
    before.lemma_bits_len();
    assert(seq_write(seq_write(before.bits(), a@, va), b@, vb) =~= seq_write(
        seq_write(before.bits(), b@, vb),
        a@,
        va,
    ));
}

/// Inversions under disjoint masks give the same register in either order.
pub proof fn disjoint_inversions_commute<R: BitRegister>(before: R, a: BitMask<R>, b: BitMask<R>)
    requires
        disjoint(a, b),
    ensures
        seq_flip(seq_flip(before.bits(), a@), b@) == seq_flip(seq_flip(before.bits(), b@), a@),
{
    before.lemma_bits_len();
    assert(seq_flip(seq_flip(before.bits(), a@), b@) =~= seq_flip(seq_flip(before.bits(), b@), a@));
}

/// A write and an inversion under disjoint masks give the same register in
/// either order.
pub proof fn disjoint_write_inversion_commute<R: BitRegister>(
    before: R,
    a: BitMask<R>,
    va: bool,
    b: BitMask<R>,
)
    requires
        disjoint(a, b),
    ensures
        seq_flip(seq_write(before.bits(), a@, va), b@) == seq_write(
            seq_flip(before.bits(), b@),
            a@,
            va,
        ),
{
    before.lemma_bits_len();
    assert(seq_flip(seq_write(before.bits(), a@, va), b@) =~= seq_write(
        seq_flip(before.bits(), b@),
        a@,
        va,
    ));
}

} // verus!
