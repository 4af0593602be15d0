//! Register widths, their bit model, and the index and mask values that
//! select bits inside a register.

use core::marker::PhantomData;
use vstd::prelude::*;

verus! {

/// The bits of a register where `m` selects being set to `1`.
pub open spec fn seq_set(v: Seq<bool>, m: Seq<bool>) -> Seq<bool> {
    Seq::new(v.len(), |i: int| v[i] || m[i])
}

/// The bits of a register where `m` selects being set to `0`.
pub open spec fn seq_clear(v: Seq<bool>, m: Seq<bool>) -> Seq<bool> {
    Seq::new(v.len(), |i: int| v[i] && !m[i])
}

/// The bits of a register where `m` selects being flipped.
pub open spec fn seq_flip(v: Seq<bool>, m: Seq<bool>) -> Seq<bool> {
    Seq::new(v.len(), |i: int| v[i] != m[i])
}

/// The bits of a register where `m` selects being overwritten by `b`.
pub open spec fn seq_write(v: Seq<bool>, m: Seq<bool>, b: bool) -> Seq<bool> {
    Seq::new(v.len(), |i: int| if m[i] { b } else { v[i] })
}

/// The bits of a register of `w` bits where only position `p` is set.
pub open spec fn seq_single(w: nat, p: int) -> Seq<bool> {
    Seq::new(w, |i: int| i == p)
}

/// An unsigned integer type that can serve as a memory register.
pub trait BitRegister: Sized + Copy {
    /// The number of bits in the register.
    spec fn width() -> nat;

    /// The bits of the value, position `0` being the least significant.
    spec fn bits(self) -> Seq<bool>;

    /// The number of bits in the register.
    fn bit_width() -> (r: u8)
        ensures
            r as nat == Self::width(),
            r == 8 || r == 16 || r == 32 || r == 64,
    ;

    /// The value with every bit `0`.
    fn zero() -> (r: Self)
        ensures
            r.bits() == Seq::new(Self::width(), |i: int| false),
    ;

    /// The value with every bit `1`.
    fn ones() -> (r: Self)
        ensures
            r.bits() == Seq::new(Self::width(), |i: int| true),
    ;

    /// The value whose only set bit is at position `p`.
    fn single(p: u8) -> (r: Self)
        requires
            (p as nat) < Self::width(),
        ensures
            r.bits() == seq_single(Self::width(), p as int),
    ;

    /// Bitwise complement.
    spec fn spec_not(self) -> Self;

    /// Bitwise conjunction.
    spec fn spec_and(self, o: Self) -> Self;

    /// Bitwise disjunction.
    spec fn spec_or(self, o: Self) -> Self;

    /// Bitwise exclusive disjunction.
    spec fn spec_xor(self, o: Self) -> Self;

    /// Each bit of the complement is the negated bit.
    proof fn lemma_not(a: Self)
        ensures
            a.spec_not().bits() == Seq::new(Self::width(), |i: int| !a.bits()[i]),
    ;

    /// Each bit of the conjunction is the conjunction of the bits.
    proof fn lemma_and(a: Self, b: Self)
        ensures
            a.spec_and(b).bits() == Seq::new(Self::width(), |i: int| a.bits()[i] && b.bits()[i]),
    ;

    /// Each bit of the disjunction is the disjunction of the bits.
    proof fn lemma_or(a: Self, b: Self)
        ensures
            a.spec_or(b).bits() == seq_set(a.bits(), b.bits()),
    ;

    /// Each bit of the exclusive disjunction is the difference of the bits.
    proof fn lemma_xor(a: Self, b: Self)
        ensures
            a.spec_xor(b).bits() == seq_flip(a.bits(), b.bits()),
    ;

    /// Bitwise complement.
    fn complement(self) -> (r: Self)
        ensures
            r == self.spec_not(),
            r.bits() == Seq::new(Self::width(), |i: int| !self.bits()[i]),
    ;

    /// Bitwise conjunction.
    fn and(self, o: Self) -> (r: Self)
        ensures
            r == self.spec_and(o),
            r.bits() == Seq::new(Self::width(), |i: int| self.bits()[i] && o.bits()[i]),
    ;

    /// Bitwise disjunction.
    fn or(self, o: Self) -> (r: Self)
        ensures
            r == self.spec_or(o),
            r.bits() == seq_set(self.bits(), o.bits()),
    ;

    /// Bitwise exclusive disjunction.
    fn xor(self, o: Self) -> (r: Self)
        ensures
            r == self.spec_xor(o),
            r.bits() == seq_flip(self.bits(), o.bits()),
    ;

    /// Whether the bit at position `p` is set.
    fn test(self, p: u8) -> (r: bool)
        requires
            (p as nat) < Self::width(),
        ensures
            r == self.bits()[p as int],
    ;

    /// Registers are 8, 16, 32 or 64 bits wide.
    proof fn lemma_width()
        ensures
            Self::width() == 8 || Self::width() == 16 || Self::width() == 32 || Self::width() == 64,
    ;

    /// The model has one entry per bit.
    proof fn lemma_bits_len(self)
        ensures
            self.bits().len() == Self::width(),
    ;
}

/// The semantic index of a bit inside a register of type `R`: always below
/// the register's width.
pub struct BitIdx<R: BitRegister> {
    idx: u8,
    reg: PhantomData<R>,
}

impl<R: BitRegister> BitIdx<R> {
    /// The index as a number.
    pub closed spec fn view(self) -> int {
        self.idx as int
    }

    #[verifier::type_invariant]
    spec fn inv(self) -> bool {
        (self.idx as nat) < R::width()
    }

    /// The index of the first bit.
    pub fn zero() -> (r: Self)
        ensures
            r@ == 0,
    {
        proof {
            R::lemma_width();
        }
        BitIdx { idx: 0, reg: PhantomData }
    }

    /// Makes an index, if `idx` is below the register's width.
    pub fn new(idx: u8) -> (r: Option<Self>)
        ensures
            r is Some <==> (idx as nat) < R::width(),
            r matches Some(i) ==> i@ == idx as int,
    {
        if idx < R::bit_width() {
            Some(BitIdx { idx, reg: PhantomData })
        } else {
            None
        }
    }

    /// The index as a number.
    pub fn value(self) -> (r: u8)
        ensures
            r as int == self@,
            (r as nat) < R::width(),
    {
        proof {
            use_type_invariant(self);
        }
        self.idx
    }

    /// The one-bit mask that selects this index under the ordering `O`.
    pub fn select<O: BitOrder>(self) -> (r: BitMask<R>)
        ensures
            0 <= self@ < R::width(),
            r@ == seq_single(R::width(), O::position(R::width(), self@)),
    {
        proof {
            use_type_invariant(self);
        }
        proof {
            O::lemma_position_in_range(R::width(), self.idx as int);
        }
        let p = O::at(R::bit_width(), self.idx);
        BitMask { mask: R::single(p) }
    }
}

impl<R: BitRegister> Clone for BitIdx<R> {
    fn clone(&self) -> (r: Self)
        ensures
            r@ == self@,
    {
        proof {
            use_type_invariant(self);
        }
        BitIdx { idx: self.idx, reg: PhantomData }
    }
}

impl<R: BitRegister> Copy for BitIdx<R> {
}

/// A selection mask over a register of type `R`: its set bits are the
/// physical positions that an operation targets.
pub struct BitMask<R: BitRegister> {
    mask: R,
}

impl<R: BitRegister> BitMask<R> {
    /// The selected positions.
    pub open spec fn view(self) -> Seq<bool> {
        self.value().bits()
    }

    /// The mask that selects the set bits of `mask`.
    pub fn new(mask: R) -> (r: Self)
        ensures
            r@ == mask.bits(),
            r.value() == mask,
    {
        BitMask { mask }
    }

    /// The mask that selects every bit.
    pub fn all() -> (r: Self)
        ensures
            r@ == Seq::new(R::width(), |i: int| true),
    {
        BitMask { mask: R::ones() }
    }

    /// The raw register value of the mask.
    pub closed spec fn value(self) -> R {
        self.mask
    }

    /// The raw register value of the mask.
    pub fn raw(self) -> (r: R)
        ensures
            r == self.value(),
    {
        self.mask
    }
}

impl<R: BitRegister> Clone for BitMask<R> {
    fn clone(&self) -> (r: Self)
        ensures
            r == *self,
    {
        BitMask { mask: self.mask }
    }
}

impl<R: BitRegister> Copy for BitMask<R> {
}

/// A bit-ordering policy: where a logical index lies among the physical bits
/// of a register.
pub trait BitOrder {
    /// The physical position of index `i` in a register of `width` bits.
    spec fn position(width: nat, i: int) -> int;

    /// Every index of a register lands on one of its bits.
    proof fn lemma_position_in_range(width: nat, i: int)
        requires
            0 <= i < width,
        ensures
            0 <= Self::position(width, i) < width,
    ;

    /// Distinct indices land on distinct bits.
    proof fn lemma_position_injective(width: nat, i: int, j: int)
        requires
            0 <= i < width,
            0 <= j < width,
            i != j,
        ensures
            Self::position(width, i) != Self::position(width, j),
    ;

    /// The physical position of index `i` in a register of `width` bits.
    fn at(width: u8, i: u8) -> (r: u8)
        requires
            i < width,
        ensures
            r as int == Self::position(width as nat, i as int),
    ;
}

/// Index `0` is the least significant bit.
pub struct Lsb0;

/// Index `0` is the most significant bit.
pub struct Msb0;

impl BitOrder for Lsb0 {
    open spec fn position(width: nat, i: int) -> int {
        i
    }

    proof fn lemma_position_in_range(width: nat, i: int) {
    }

    proof fn lemma_position_injective(width: nat, i: int, j: int) {
    }

    fn at(width: u8, i: u8) -> (r: u8) {
        i
    }
}

impl BitOrder for Msb0 {
    open spec fn position(width: nat, i: int) -> int {
        width - 1 - i
    }

    proof fn lemma_position_in_range(width: nat, i: int) {
    }

    proof fn lemma_position_injective(width: nat, i: int, j: int) {
    }

    fn at(width: u8, i: u8) -> (r: u8) {
        width - 1 - i
    }
}

/// Bit `i` of a 8-bit value.
pub open spec fn bit_u8(x: u8, i: int) -> bool {
    (x >> (i as u8)) & 1u8 == 1u8
}

impl BitRegister for u8 {
    open spec fn width() -> nat {
        8
    }

    open spec fn bits(self) -> Seq<bool> {
        Seq::new(8, |i: int| bit_u8(self, i))
    }

    open spec fn spec_not(self) -> u8 {
        !self
    }

    open spec fn spec_and(self, o: u8) -> u8 {
        self & o
    }

    open spec fn spec_or(self, o: u8) -> u8 {
        self | o
    }

    open spec fn spec_xor(self, o: u8) -> u8 {
        self ^ o
    }

    proof fn lemma_not(a: u8) {
        let r = !a;
        assert forall|i: u8| i < 8 implies ((r >> i) & 1u8 == 1u8) == !((a >> i) & 1u8 == 1u8) by {
            assert(i < 8 && r == !a ==> (((r >> i) & 1u8 == 1u8) == !((a >> i) & 1u8 == 1u8)))
                by (bit_vector);
        }
        assert(r.bits() =~= Seq::new(8, |i: int| !a.bits()[i]));
    }

    proof fn lemma_and(a: u8, b: u8) {
        let r = a & b;
        assert forall|i: u8| i < 8 implies ((r >> i) & 1u8 == 1u8) == (((a >> i) & 1u8 == 1u8) && ((b >> i) & 1u8 == 1u8)) by {
            assert(i < 8 && r == a & b ==> (((r >> i) & 1u8 == 1u8) == (((a >> i) & 1u8 == 1u8) && ((b >> i) & 1u8 == 1u8))))
                by (bit_vector);
        }
        assert(r.bits() =~= Seq::new(8, |i: int| a.bits()[i] && b.bits()[i]));
    }

    proof fn lemma_or(a: u8, b: u8) {
        let r = a | b;
        assert forall|i: u8| i < 8 implies ((r >> i) & 1u8 == 1u8) == (((a >> i) & 1u8 == 1u8) || ((b >> i) & 1u8 == 1u8)) by {
            assert(i < 8 && r == a | b ==> (((r >> i) & 1u8 == 1u8) == (((a >> i) & 1u8 == 1u8) || ((b >> i) & 1u8 == 1u8))))
                by (bit_vector);
        }
        assert(r.bits() =~= seq_set(a.bits(), b.bits()));
    }

    proof fn lemma_xor(a: u8, b: u8) {
        let r = a ^ b;
        assert forall|i: u8| i < 8 implies ((r >> i) & 1u8 == 1u8) == (((a >> i) & 1u8 == 1u8) != ((b >> i) & 1u8 == 1u8)) by {
            assert(i < 8 && r == a ^ b ==> (((r >> i) & 1u8 == 1u8) == (((a >> i) & 1u8 == 1u8) != ((b >> i) & 1u8 == 1u8))))
                by (bit_vector);
        }
        assert(r.bits() =~= seq_flip(a.bits(), b.bits()));
    }

    fn bit_width() -> (r: u8) {
        8
    }

    fn zero() -> (r: u8) {
        assert forall|i: u8| i < 8 implies !((0u8 >> i) & 1u8 == 1u8) by {
            assert(i < 8 ==> !((0u8 >> i) & 1u8 == 1u8)) by (bit_vector);
        }
        assert(Self::bits(0u8) =~= Seq::new(8, |i: int| false));
        0
    }

    fn ones() -> (r: u8) {
        assert forall|i: u8| i < 8 implies (0xffu8 >> i) & 1u8 == 1u8 by {
            assert(i < 8 ==> (0xffu8 >> i) & 1u8 == 1u8) by (bit_vector);
        }
        assert(Self::bits(0xffu8) =~= Seq::new(8, |i: int| true));
        0xffu8
    }

    fn single(p: u8) -> (r: u8) {
        let r = 1u8 << p;
        assert forall|i: u8| i < 8 implies ((r >> i) & 1u8 == 1u8) == (i == p) by {
            assert(i < 8 && p < 8 && r == 1u8 << p ==> (((r >> i) & 1u8 == 1u8) == (i == p)))
                by (bit_vector);
        }
        assert(Self::bits(r) =~= seq_single(8, p as int));
        r
    }

    fn complement(self) -> (r: u8) {
        proof {
            Self::lemma_not(self);
        }
        !self
    }

    fn and(self, o: u8) -> (r: u8) {
        proof {
            Self::lemma_and(self, o);
        }
        self & o
    }

    fn or(self, o: u8) -> (r: u8) {
        proof {
            Self::lemma_or(self, o);
        }
        self | o
    }

    fn xor(self, o: u8) -> (r: u8) {
        proof {
            Self::lemma_xor(self, o);
        }
        self ^ o
    }

    fn test(self, p: u8) -> (r: bool) {
        (self >> p) & 1u8 == 1u8
    }

    proof fn lemma_width() {
    }

    proof fn lemma_bits_len(self) {
    }
}

/// Bit `i` of a 16-bit value.
pub open spec fn bit_u16(x: u16, i: int) -> bool {
    (x >> (i as u8)) & 1u16 == 1u16
}

impl BitRegister for u16 {
    open spec fn width() -> nat {
        16
    }

    open spec fn bits(self) -> Seq<bool> {
        Seq::new(16, |i: int| bit_u16(self, i))
    }

    open spec fn spec_not(self) -> u16 {
        !self
    }

    open spec fn spec_and(self, o: u16) -> u16 {
        self & o
    }

    open spec fn spec_or(self, o: u16) -> u16 {
        self | o
    }

    open spec fn spec_xor(self, o: u16) -> u16 {
        self ^ o
    }

    proof fn lemma_not(a: u16) {
        let r = !a;
        assert forall|i: u8| i < 16 implies ((r >> i) & 1u16 == 1u16) == !((a >> i) & 1u16 == 1u16) by {
            assert(i < 16 && r == !a ==> (((r >> i) & 1u16 == 1u16) == !((a >> i) & 1u16 == 1u16)))
                by (bit_vector);
        }
        assert(r.bits() =~= Seq::new(16, |i: int| !a.bits()[i]));
    }

    proof fn lemma_and(a: u16, b: u16) {
        let r = a & b;
        assert forall|i: u8| i < 16 implies ((r >> i) & 1u16 == 1u16) == (((a >> i) & 1u16 == 1u16) && ((b >> i) & 1u16 == 1u16)) by {
            assert(i < 16 && r == a & b ==> (((r >> i) & 1u16 == 1u16) == (((a >> i) & 1u16 == 1u16) && ((b >> i) & 1u16 == 1u16))))
                by (bit_vector);
        }
        assert(r.bits() =~= Seq::new(16, |i: int| a.bits()[i] && b.bits()[i]));
    }

    proof fn lemma_or(a: u16, b: u16) {
        let r = a | b;
        assert forall|i: u8| i < 16 implies ((r >> i) & 1u16 == 1u16) == (((a >> i) & 1u16 == 1u16) || ((b >> i) & 1u16 == 1u16)) by {
            assert(i < 16 && r == a | b ==> (((r >> i) & 1u16 == 1u16) == (((a >> i) & 1u16 == 1u16) || ((b >> i) & 1u16 == 1u16))))
                by (bit_vector);
        }
        assert(r.bits() =~= seq_set(a.bits(), b.bits()));
    }

    proof fn lemma_xor(a: u16, b: u16) {
        let r = a ^ b;
        assert forall|i: u8| i < 16 implies ((r >> i) & 1u16 == 1u16) == (((a >> i) & 1u16 == 1u16) != ((b >> i) & 1u16 == 1u16)) by {
            assert(i < 16 && r == a ^ b ==> (((r >> i) & 1u16 == 1u16) == (((a >> i) & 1u16 == 1u16) != ((b >> i) & 1u16 == 1u16))))
                by (bit_vector);
        }
        assert(r.bits() =~= seq_flip(a.bits(), b.bits()));
    }

    fn bit_width() -> (r: u8) {
        16
    }

    fn zero() -> (r: u16) {
        assert forall|i: u8| i < 16 implies !((0u16 >> i) & 1u16 == 1u16) by {
            assert(i < 16 ==> !((0u16 >> i) & 1u16 == 1u16)) by (bit_vector);
        }
        assert(Self::bits(0u16) =~= Seq::new(16, |i: int| false));
        0
    }

    fn ones() -> (r: u16) {
        assert forall|i: u8| i < 16 implies (0xffffu16 >> i) & 1u16 == 1u16 by {
            assert(i < 16 ==> (0xffffu16 >> i) & 1u16 == 1u16) by (bit_vector);
        }
        assert(Self::bits(0xffffu16) =~= Seq::new(16, |i: int| true));
        0xffffu16
    }

    fn single(p: u8) -> (r: u16) {
        let r = 1u16 << p;
        assert forall|i: u8| i < 16 implies ((r >> i) & 1u16 == 1u16) == (i == p) by {
            assert(i < 16 && p < 16 && r == 1u16 << p ==> (((r >> i) & 1u16 == 1u16) == (i == p)))
                by (bit_vector);
        }
        assert(Self::bits(r) =~= seq_single(16, p as int));
        r
    }

    fn complement(self) -> (r: u16) {
        proof {
            Self::lemma_not(self);
        }
        !self
    }

    fn and(self, o: u16) -> (r: u16) {
        proof {
            Self::lemma_and(self, o);
        }
        self & o
    }

    fn or(self, o: u16) -> (r: u16) {
        proof {
            Self::lemma_or(self, o);
        }
        self | o
    }

    fn xor(self, o: u16) -> (r: u16) {
        proof {
            Self::lemma_xor(self, o);
        }
        self ^ o
    }

    fn test(self, p: u8) -> (r: bool) {
        (self >> p) & 1u16 == 1u16
    }

    proof fn lemma_width() {
    }

    proof fn lemma_bits_len(self) {
    }
}

/// Bit `i` of a 32-bit value.
pub open spec fn bit_u32(x: u32, i: int) -> bool {
    (x >> (i as u8)) & 1u32 == 1u32
}

impl BitRegister for u32 {
    open spec fn width() -> nat {
        32
    }

    open spec fn bits(self) -> Seq<bool> {
        Seq::new(32, |i: int| bit_u32(self, i))
    }

    open spec fn spec_not(self) -> u32 {
        !self
    }

    open spec fn spec_and(self, o: u32) -> u32 {
        self & o
    }

    open spec fn spec_or(self, o: u32) -> u32 {
        self | o
    }

    open spec fn spec_xor(self, o: u32) -> u32 {
        self ^ o
    }

    proof fn lemma_not(a: u32) {
        let r = !a;
        assert forall|i: u8| i < 32 implies ((r >> i) & 1u32 == 1u32) == !((a >> i) & 1u32 == 1u32) by {
            assert(i < 32 && r == !a ==> (((r >> i) & 1u32 == 1u32) == !((a >> i) & 1u32 == 1u32)))
                by (bit_vector);
        }
        assert(r.bits() =~= Seq::new(32, |i: int| !a.bits()[i]));
    }

    proof fn lemma_and(a: u32, b: u32) {
        let r = a & b;
        assert forall|i: u8| i < 32 implies ((r >> i) & 1u32 == 1u32) == (((a >> i) & 1u32 == 1u32) && ((b >> i) & 1u32 == 1u32)) by {
            assert(i < 32 && r == a & b ==> (((r >> i) & 1u32 == 1u32) == (((a >> i) & 1u32 == 1u32) && ((b >> i) & 1u32 == 1u32))))
                by (bit_vector);
        }
        assert(r.bits() =~= Seq::new(32, |i: int| a.bits()[i] && b.bits()[i]));
    }

    proof fn lemma_or(a: u32, b: u32) {
        let r = a | b;
        assert forall|i: u8| i < 32 implies ((r >> i) & 1u32 == 1u32) == (((a >> i) & 1u32 == 1u32) || ((b >> i) & 1u32 == 1u32)) by {
            assert(i < 32 && r == a | b ==> (((r >> i) & 1u32 == 1u32) == (((a >> i) & 1u32 == 1u32) || ((b >> i) & 1u32 == 1u32))))
                by (bit_vector);
        }
        assert(r.bits() =~= seq_set(a.bits(), b.bits()));
    }

    proof fn lemma_xor(a: u32, b: u32) {
        let r = a ^ b;
        assert forall|i: u8| i < 32 implies ((r >> i) & 1u32 == 1u32) == (((a >> i) & 1u32 == 1u32) != ((b >> i) & 1u32 == 1u32)) by {
            assert(i < 32 && r == a ^ b ==> (((r >> i) & 1u32 == 1u32) == (((a >> i) & 1u32 == 1u32) != ((b >> i) & 1u32 == 1u32))))
                by (bit_vector);
        }
        assert(r.bits() =~= seq_flip(a.bits(), b.bits()));
    }

    fn bit_width() -> (r: u8) {
        32
    }

    fn zero() -> (r: u32) {
        assert forall|i: u8| i < 32 implies !((0u32 >> i) & 1u32 == 1u32) by {
            assert(i < 32 ==> !((0u32 >> i) & 1u32 == 1u32)) by (bit_vector);
        }
        assert(Self::bits(0u32) =~= Seq::new(32, |i: int| false));
        0
    }

    fn ones() -> (r: u32) {
        assert forall|i: u8| i < 32 implies (0xffff_ffffu32 >> i) & 1u32 == 1u32 by {
            assert(i < 32 ==> (0xffff_ffffu32 >> i) & 1u32 == 1u32) by (bit_vector);
        }
        assert(Self::bits(0xffff_ffffu32) =~= Seq::new(32, |i: int| true));
        0xffff_ffffu32
    }

    fn single(p: u8) -> (r: u32) {
        let r = 1u32 << p;
        assert forall|i: u8| i < 32 implies ((r >> i) & 1u32 == 1u32) == (i == p) by {
            assert(i < 32 && p < 32 && r == 1u32 << p ==> (((r >> i) & 1u32 == 1u32) == (i == p)))
                by (bit_vector);
        }
        assert(Self::bits(r) =~= seq_single(32, p as int));
        r
    }

    fn complement(self) -> (r: u32) {
        proof {
            Self::lemma_not(self);
        }
        !self
    }

    fn and(self, o: u32) -> (r: u32) {
        proof {
            Self::lemma_and(self, o);
        }
        self & o
    }

    fn or(self, o: u32) -> (r: u32) {
        proof {
            Self::lemma_or(self, o);
        }
        self | o
    }

    fn xor(self, o: u32) -> (r: u32) {
        proof {
            Self::lemma_xor(self, o);
        }
        self ^ o
    }

    fn test(self, p: u8) -> (r: bool) {
        (self >> p) & 1u32 == 1u32
    }

    proof fn lemma_width() {
    }

    proof fn lemma_bits_len(self) {
    }
}

/// Bit `i` of a 64-bit value.
pub open spec fn bit_u64(x: u64, i: int) -> bool {
    (x >> (i as u8)) & 1u64 == 1u64
}

impl BitRegister for u64 {
    open spec fn width() -> nat {
        64
    }

    open spec fn bits(self) -> Seq<bool> {
        Seq::new(64, |i: int| bit_u64(self, i))
    }

    open spec fn spec_not(self) -> u64 {
        !self
    }

    open spec fn spec_and(self, o: u64) -> u64 {
        self & o
    }

    open spec fn spec_or(self, o: u64) -> u64 {
        self | o
    }

    open spec fn spec_xor(self, o: u64) -> u64 {
        self ^ o
    }

    proof fn lemma_not(a: u64) {
        let r = !a;
        assert forall|i: u8| i < 64 implies ((r >> i) & 1u64 == 1u64) == !((a >> i) & 1u64 == 1u64) by {
            assert(i < 64 && r == !a ==> (((r >> i) & 1u64 == 1u64) == !((a >> i) & 1u64 == 1u64)))
                by (bit_vector);
        }
        assert(r.bits() =~= Seq::new(64, |i: int| !a.bits()[i]));
    }

    proof fn lemma_and(a: u64, b: u64) {
        let r = a & b;
        assert forall|i: u8| i < 64 implies ((r >> i) & 1u64 == 1u64) == (((a >> i) & 1u64 == 1u64) && ((b >> i) & 1u64 == 1u64)) by {
            assert(i < 64 && r == a & b ==> (((r >> i) & 1u64 == 1u64) == (((a >> i) & 1u64 == 1u64) && ((b >> i) & 1u64 == 1u64))))
                by (bit_vector);
        }
        assert(r.bits() =~= Seq::new(64, |i: int| a.bits()[i] && b.bits()[i]));
    }

    proof fn lemma_or(a: u64, b: u64) {
        let r = a | b;
        assert forall|i: u8| i < 64 implies ((r >> i) & 1u64 == 1u64) == (((a >> i) & 1u64 == 1u64) || ((b >> i) & 1u64 == 1u64)) by {
            assert(i < 64 && r == a | b ==> (((r >> i) & 1u64 == 1u64) == (((a >> i) & 1u64 == 1u64) || ((b >> i) & 1u64 == 1u64))))
                by (bit_vector);
        }
        assert(r.bits() =~= seq_set(a.bits(), b.bits()));
    }

    proof fn lemma_xor(a: u64, b: u64) {
        let r = a ^ b;
        assert forall|i: u8| i < 64 implies ((r >> i) & 1u64 == 1u64) == (((a >> i) & 1u64 == 1u64) != ((b >> i) & 1u64 == 1u64)) by {
            assert(i < 64 && r == a ^ b ==> (((r >> i) & 1u64 == 1u64) == (((a >> i) & 1u64 == 1u64) != ((b >> i) & 1u64 == 1u64))))
                by (bit_vector);
        }
        assert(r.bits() =~= seq_flip(a.bits(), b.bits()));
    }

    fn bit_width() -> (r: u8) {
        64
    }

    fn zero() -> (r: u64) {
        assert forall|i: u8| i < 64 implies !((0u64 >> i) & 1u64 == 1u64) by {
            assert(i < 64 ==> !((0u64 >> i) & 1u64 == 1u64)) by (bit_vector);
        }
        assert(Self::bits(0u64) =~= Seq::new(64, |i: int| false));
        0
    }

    fn ones() -> (r: u64) {
        assert forall|i: u8| i < 64 implies (0xffff_ffff_ffff_ffffu64 >> i) & 1u64 == 1u64 by {
            assert(i < 64 ==> (0xffff_ffff_ffff_ffffu64 >> i) & 1u64 == 1u64) by (bit_vector);
        }
        assert(Self::bits(0xffff_ffff_ffff_ffffu64) =~= Seq::new(64, |i: int| true));
        0xffff_ffff_ffff_ffffu64
    }

    fn single(p: u8) -> (r: u64) {
        let r = 1u64 << p;
        assert forall|i: u8| i < 64 implies ((r >> i) & 1u64 == 1u64) == (i == p) by {
            assert(i < 64 && p < 64 && r == 1u64 << p ==> (((r >> i) & 1u64 == 1u64) == (i == p)))
                by (bit_vector);
        }
        assert(Self::bits(r) =~= seq_single(64, p as int));
        r
    }

    fn complement(self) -> (r: u64) {
        proof {
            Self::lemma_not(self);
        }
        !self
    }

    fn and(self, o: u64) -> (r: u64) {
        proof {
            Self::lemma_and(self, o);
        }
        self & o
    }

    fn or(self, o: u64) -> (r: u64) {
        proof {
            Self::lemma_or(self, o);
        }
        self | o
    }

    fn xor(self, o: u64) -> (r: u64) {
        proof {
            Self::lemma_xor(self, o);
        }
        self ^ o
    }

    fn test(self, p: u8) -> (r: bool) {
        (self >> p) & 1u64 == 1u64
    }

    proof fn lemma_width() {
    }

    proof fn lemma_bits_len(self) {
    }
}

/// The platform word, modelled through the 64-bit register that holds it
/// without loss.
impl BitRegister for usize {
    open spec fn width() -> nat {
        usize::BITS as nat
    }

    open spec fn bits(self) -> Seq<bool> {
        Seq::new(usize::BITS as nat, |i: int| bit_u64(self as u64, i))
    }

    open spec fn spec_not(self) -> usize {
        self ^ usize::MAX
    }

    open spec fn spec_and(self, o: usize) -> usize {
        self & o
    }

    open spec fn spec_or(self, o: usize) -> usize {
        self | o
    }

    open spec fn spec_xor(self, o: usize) -> usize {
        self ^ o
    }

    proof fn lemma_not(a: usize) {
        Self::lemma_xor(a, usize::MAX);
        lemma_word_max_bits();
        assert(a.spec_not().bits() =~= Seq::new(Self::width(), |i: int| !a.bits()[i]));
    }

    proof fn lemma_and(a: usize, b: usize) {
        assert((a & b) as u64 == (a as u64) & (b as u64));
        <u64 as BitRegister>::lemma_and(a as u64, b as u64);
        assert forall|i: int| 0 <= i < usize::BITS implies #[trigger] bit_u64((a & b) as u64, i) == (bit_u64(
            a as u64,
            i,
        ) && bit_u64(b as u64, i)) by {
            assert(((a as u64) & (b as u64)).bits()[i] == bit_u64((a as u64) & (b as u64), i));
        }
        assert(a.spec_and(b).bits() =~= Seq::new(
            Self::width(),
            |i: int| a.bits()[i] && b.bits()[i],
        ));
    }

    proof fn lemma_or(a: usize, b: usize) {
        assert((a | b) as u64 == (a as u64) | (b as u64));
        <u64 as BitRegister>::lemma_or(a as u64, b as u64);
        assert forall|i: int| 0 <= i < usize::BITS implies #[trigger] bit_u64((a | b) as u64, i) == (bit_u64(
            a as u64,
            i,
        ) || bit_u64(b as u64, i)) by {
            assert(((a as u64) | (b as u64)).bits()[i] == bit_u64((a as u64) | (b as u64), i));
        }
        assert(a.spec_or(b).bits() =~= seq_set(a.bits(), b.bits()));
    }

    proof fn lemma_xor(a: usize, b: usize) {
        assert((a ^ b) as u64 == (a as u64) ^ (b as u64));
        <u64 as BitRegister>::lemma_xor(a as u64, b as u64);
        assert forall|i: int| 0 <= i < usize::BITS implies #[trigger] bit_u64((a ^ b) as u64, i) == (bit_u64(
            a as u64,
            i,
        ) != bit_u64(b as u64, i)) by {
            assert(((a as u64) ^ (b as u64)).bits()[i] == bit_u64((a as u64) ^ (b as u64), i));
        }
        assert(a.spec_xor(b).bits() =~= seq_flip(a.bits(), b.bits()));
    }

    fn bit_width() -> (r: u8) {
        usize::BITS as u8
    }

    fn zero() -> (r: usize) {
        assert(Self::bits(0usize) =~= Seq::new(Self::width(), |i: int| false)) by {
            assert forall|i: int| 0 <= i < usize::BITS implies !#[trigger] bit_u64(0u64, i) by {
                let j = i as u8;
                assert((0u64 >> j) & 1u64 == 0u64) by (bit_vector);
            }
        }
        0
    }

    fn ones() -> (r: usize) {
        proof {
            lemma_word_max_bits();
        }
        usize::MAX
    }

    fn single(p: u8) -> (r: usize) {
        let wide = 1u64 << p;
        assert(p < 32 ==> (1u64 << p) <= 0xffff_ffffu64) by (bit_vector);
        assert(wide <= usize::MAX);
        let r = wide as usize;
        assert(Self::bits(r) =~= seq_single(Self::width(), p as int)) by {
            assert forall|i: int| 0 <= i < usize::BITS implies #[trigger] bit_u64(r as u64, i) == (i == p) by {
                let j = i as u8;
                assert(j < 64 && p < 64 && wide == 1u64 << p ==> (((wide >> j) & 1u64 == 1u64) == (j == p)))
                    by (bit_vector);
            }
        }
        r
    }

    fn complement(self) -> (r: usize) {
        proof {
            Self::lemma_not(self);
        }
        self ^ usize::MAX
    }

    fn and(self, o: usize) -> (r: usize) {
        proof {
            Self::lemma_and(self, o);
        }
        self & o
    }

    fn or(self, o: usize) -> (r: usize) {
        proof {
            Self::lemma_or(self, o);
        }
        self | o
    }

    fn xor(self, o: usize) -> (r: usize) {
        proof {
            Self::lemma_xor(self, o);
        }
        self ^ o
    }

    fn test(self, p: u8) -> (r: bool) {
        ((self as u64) >> p) & 1u64 == 1u64
    }

    proof fn lemma_width() {
    }

    proof fn lemma_bits_len(self) {
    }
}

/// Every bit of the largest platform word is set.
proof fn lemma_word_max_bits()
    ensures
        forall|i: int| 0 <= i < usize::BITS ==> #[trigger] bit_u64(usize::MAX as u64, i),
{
    assert forall|i: int| 0 <= i < usize::BITS implies #[trigger] bit_u64(usize::MAX as u64, i) by {
        if usize::BITS == 64 {
            assert forall|j: u8| j < 64 implies (0xffff_ffff_ffff_ffffu64 >> j) & 1u64 == 1u64 by {
                assert(j < 64 ==> (0xffff_ffff_ffff_ffffu64 >> j) & 1u64 == 1u64) by (bit_vector);
            }
            assert(bit_u64(0xffff_ffff_ffff_ffffu64, i) == ((0xffff_ffff_ffff_ffffu64 >> (i as u8)) & 1u64
                == 1u64));
        } else {
            assert forall|j: u8| j < 32 implies (0xffff_ffffu64 >> j) & 1u64 == 1u64 by {
                assert(j < 32 ==> (0xffff_ffffu64 >> j) & 1u64 == 1u64) by (bit_vector);
            }
            assert(bit_u64(0xffff_ffffu64, i) == ((0xffff_ffffu64 >> (i as u8)) & 1u64 == 1u64));
        }
    }
}

} // verus!
