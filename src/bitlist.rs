//! An owned sequence of bits, with the queries and rearrangements that
//! higher layers perform over bit ranges, and its exchange with byte
//! registers under a bit ordering.

use crate::access::BitAccess;
use crate::storage::{cell_u8_load, cell_u8_new};
use crate::register::{BitIdx, BitOrder, BitRegister};
use vstd::prelude::*;

verus! {

/// The number of set bits in `s`.
pub open spec fn count_true(s: Seq<bool>) -> nat
    decreases s.len(),
{
    if s.len() == 0 {
        0
    } else {
        count_true(s.drop_last()) + (if s.last() {
            1nat
        } else {
            0nat
        })
    }
}

/// The bits of a run of byte registers: index `i` is the bit that the
/// ordering `O` places at index `i % 8` of byte `i / 8`.
pub open spec fn elements_bits<O: BitOrder>(elems: Seq<u8>) -> Seq<bool> {
    Seq::new(elems.len() * 8, |i: int| elems[i / 8].bits()[O::position(8, i % 8)])
}

/// Whether `pat` occurs in `s` starting at `k`.
pub open spec fn occurs_at(s: Seq<bool>, pat: Seq<bool>, k: int) -> bool {
    0 <= k && k + pat.len() <= s.len() && s.subrange(k, k + pat.len()) == pat
}

/// `s` with the bits in `lo..hi` in reverse order.
pub open spec fn reversed_range(s: Seq<bool>, lo: int, hi: int) -> Seq<bool> {
    Seq::new(s.len(), |k: int| if lo <= k < hi { s[lo + hi - 1 - k] } else { s[k] })
}

/// `s` with the bits in `lo..hi` flipped.
pub open spec fn inverted_range(s: Seq<bool>, lo: int, hi: int) -> Seq<bool> {
    Seq::new(s.len(), |k: int| if lo <= k < hi { !s[k] } else { s[k] })
}

/// `s` with `src` written over it from `dest` on.
pub open spec fn overwritten(s: Seq<bool>, dest: int, src: Seq<bool>) -> Seq<bool> {
    Seq::new(
        s.len(),
        |k: int| if dest <= k < dest + src.len() { src[k - dest] } else { s[k] },
    )
}

/// `s` moved `by` places toward index `0`, with zeros entering at the end.
pub open spec fn shifted_left(s: Seq<bool>, by: int) -> Seq<bool> {
    Seq::new(s.len(), |k: int| if k + by < s.len() { s[k + by] } else { false })
}

/// `s` moved `by` places away from index `0`, with zeros entering at the
/// front.
pub open spec fn shifted_right(s: Seq<bool>, by: int) -> Seq<bool> {
    Seq::new(s.len(), |k: int| if k >= by { s[k - by] } else { false })
}

/// `s` rotated `by` places toward index `0`.
pub open spec fn rotated_left(s: Seq<bool>, by: int) -> Seq<bool> {
    Seq::new(s.len(), |k: int| s[(k + by) % (s.len() as int)])
}

/// `n` copies of `s`, one after the other.
pub open spec fn repeated(s: Seq<bool>, n: int) -> Seq<bool> {
    Seq::new((s.len() * n) as nat, |k: int| s[k % (s.len() as int)])
}

/// An owned sequence of bits.
pub struct BitList {
    bits: Vec<bool>,
}

impl BitList {
    /// The bits, in index order.
    pub closed spec fn view(&self) -> Seq<bool> {
        self.bits@
    }

    /// The bits of `b`, in order.
    pub fn from_bools(b: &[bool]) -> (r: BitList)
        ensures
            r@ == b@,
    {
        let mut bits: Vec<bool> = Vec::new();
        let mut k: usize = 0;
        while k < b.len()
            invariant
                k <= b@.len(),
                bits@ == b@.subrange(0, k as int),
            decreases b@.len() - k,
        {
            bits.push(b[k]);
            k += 1;
            assert(bits@ =~= b@.subrange(0, k as int));
        }
        assert(b@.subrange(0, b@.len() as int) =~= b@);
        BitList { bits }
    }

    /// `n` bits, each equal to `bit`.
    pub fn repeat_bit(bit: bool, n: usize) -> (r: BitList)
        ensures
            r@ == Seq::new(n as nat, |i: int| bit),
    {
        let mut bits: Vec<bool> = Vec::new();
        let mut k: usize = 0;
        while k < n
            invariant
                k <= n,
                bits@ == Seq::new(k as nat, |i: int| bit),
            decreases n - k,
        {
            bits.push(bit);
            k += 1;
            assert(bits@ =~= Seq::new(k as nat, |i: int| bit));
        }
        BitList { bits }
    }

    /// The bits, in index order.
    pub fn to_vec(&self) -> (r: Vec<bool>)
        ensures
            r@ == self@,
    {
        self.bits.clone()
    }

    /// The number of bits.
    pub fn len(&self) -> (r: usize)
        ensures
            r == self@.len(),
    {
        self.bits.len()
    }

    /// Whether there are no bits.
    pub fn is_empty(&self) -> (r: bool)
        ensures
            r == (self@.len() == 0),
    {
        self.bits.len() == 0
    }

    /// The bit at `i`, if there is one.
    pub fn get(&self, i: usize) -> (r: Option<bool>)
        ensures
            r == (if i < self@.len() {
                Some(self@[i as int])
            } else {
                None
            }),
    {
        if i < self.bits.len() {
            Some(self.bits[i])
        } else {
            None
        }
    }

    /// Writes `value` into the bit at `i`.
    pub fn set(&mut self, i: usize, value: bool)
        requires
            i < old(self)@.len(),
        ensures
            final(self)@ == old(self)@.update(i as int, value),
    {
        self.bits.set(i, value);
    }

    /// The first bit, if there is one.
    pub fn first(&self) -> (r: Option<bool>)
        ensures
            r == (if self@.len() > 0 {
                Some(self@[0])
            } else {
                None
            }),
    {
        self.get(0)
    }

    /// The last bit, if there is one.
    pub fn last(&self) -> (r: Option<bool>)
        ensures
            r == (if self@.len() > 0 {
                Some(self@.last())
            } else {
                None
            }),
    {
        if self.bits.len() == 0 {
            None
        } else {
            Some(self.bits[self.bits.len() - 1])
        }
    }

    /// A copy of the bits in `lo..hi`.
    pub fn range(&self, lo: usize, hi: usize) -> (r: BitList)
        requires
            lo <= hi <= self@.len(),
        ensures
            r@ == self@.subrange(lo as int, hi as int),
    {
        let mut bits: Vec<bool> = Vec::new();
        let mut k: usize = lo;
        while k < hi
            invariant
                lo <= k <= hi <= self@.len(),
                bits@ == self@.subrange(lo as int, k as int),
            decreases hi - k,
        {
            bits.push(self.bits[k]);
            k += 1;
            assert(bits@ =~= self@.subrange(lo as int, k as int));
        }
        BitList { bits }
    }

    /// A copy of the bits in `lo..hi`, if that range lies within the list.
    pub fn get_range(&self, lo: usize, hi: usize) -> (r: Option<BitList>)
        ensures
            r is Some <==> lo <= hi <= self@.len(),
            r matches Some(l) ==> l@ == self@.subrange(lo as int, hi as int),
    {
        if lo <= hi && hi <= self.bits.len() {
            Some(self.range(lo, hi))
        } else {
            None
        }
    }

    /// The number of set bits.
    pub fn count_ones(&self) -> (r: usize)
        ensures
            r == count_true(self@),
    {
        let mut n: usize = 0;
        let mut k: usize = 0;
        while k < self.bits.len()
            invariant
                k <= self@.len(),
                n == count_true(self@.subrange(0, k as int)),
                n <= k,
            decreases self@.len() - k,
        {
            assert(self@.subrange(0, k + 1).drop_last() =~= self@.subrange(0, k as int));
            if self.bits[k] {
                n += 1;
            }
            k += 1;
        }
        assert(self@.subrange(0, self@.len() as int) =~= self@);
        n
    }

    /// The number of clear bits.
    pub fn count_zeros(&self) -> (r: usize)
        ensures
            r == self@.len() - count_true(self@),
    {
        let ones = self.count_ones();
        proof {
            lemma_count_true_bound(self@);
        }
        self.bits.len() - ones
    }

    /// Whether every bit is set.
    pub fn all(&self) -> (r: bool)
        ensures
            r == (forall|i: int| 0 <= i < self@.len() ==> self@[i]),
    {
        let mut k: usize = 0;
        while k < self.bits.len()
            invariant
                k <= self@.len(),
                forall|i: int| 0 <= i < k ==> self@[i],
            decreases self@.len() - k,
        {
            if !self.bits[k] {
                return false;
            }
            k += 1;
        }
        true
    }

    /// Whether some bit is set.
    pub fn any(&self) -> (r: bool)
        ensures
            r == (exists|i: int| 0 <= i < self@.len() && self@[i]),
    {
        let mut k: usize = 0;
        while k < self.bits.len()
            invariant
                k <= self@.len(),
                forall|i: int| 0 <= i < k ==> !self@[i],
            decreases self@.len() - k,
        {
            if self.bits[k] {
                return true;
            }
            k += 1;
        }
        false
    }

    /// Whether some bit is clear.
    pub fn not_all(&self) -> (r: bool)
        ensures
            r == (exists|i: int| 0 <= i < self@.len() && !self@[i]),
    {
        !self.all()
    }

    /// Whether every bit is clear.
    pub fn not_any(&self) -> (r: bool)
        ensures
            r == (forall|i: int| 0 <= i < self@.len() ==> !self@[i]),
    {
        !self.any()
    }

    /// Whether some bit is set and some bit is clear.
    pub fn some(&self) -> (r: bool)
        ensures
            r == ((exists|i: int| 0 <= i < self@.len() && self@[i]) && (exists|i: int|
                0 <= i < self@.len() && !self@[i])),
    {
        self.any() && self.not_all()
    }

    /// Whether `pat` occurs in this list starting at `k`.
    fn occurs_at(&self, pat: &BitList, k: usize) -> (r: bool)
        ensures
            r == occurs_at(self@, pat@, k as int),
    {
        if k > self.bits.len() || pat.bits.len() > self.bits.len() - k {
            return false;
        }
        let mut j: usize = 0;
        while j < pat.bits.len()
            invariant
                k + pat@.len() <= self@.len() <= usize::MAX,
                j <= pat@.len(),
                forall|i: int| 0 <= i < j ==> self@[k + i] == pat@[i],
            decreases pat@.len() - j,
        {
            if self.bits[k + j] != pat.bits[j] {
                assert(self@.subrange(k as int, k + pat@.len())[j as int] != pat@[j as int]);
                return false;
            }
            j += 1;
        }
        assert(self@.subrange(k as int, k + pat@.len()) =~= pat@);
        true
    }

    /// Whether `pat` occurs somewhere in this list.
    pub fn contains(&self, pat: &BitList) -> (r: bool)
        ensures
            r == (exists|k: int| occurs_at(self@, pat@, k)),
    {
        let mut k: usize = 0;
        while k <= self.bits.len()
            invariant
                forall|i: int| 0 <= i < k ==> !occurs_at(self@, pat@, i),
            decreases self@.len() + 1 - k,
        {
            if self.occurs_at(pat, k) {
                return true;
            }
            if k == self.bits.len() {
                return false;
            }
            k += 1;
        }
        false
    }

    /// Whether this list begins with `pat`.
    pub fn starts_with(&self, pat: &BitList) -> (r: bool)
        ensures
            r == occurs_at(self@, pat@, 0),
    {
        self.occurs_at(pat, 0)
    }

    /// Exchanges the contents of this list and `other`, which has the same
    /// length.
    pub fn swap_with(&mut self, other: &mut BitList)
        requires
            old(self)@.len() == old(other)@.len(),
        ensures
            final(self)@ == old(other)@,
            final(other)@ == old(self)@,
    {
        core::mem::swap(&mut self.bits, &mut other.bits);
    }

    /// Exchanges the bits at `i` and `j`.
    pub fn swap(&mut self, i: usize, j: usize)
        requires
            i < old(self)@.len(),
            j < old(self)@.len(),
        ensures
            final(self)@ == old(self)@.update(i as int, old(self)@[j as int]).update(
                j as int,
                old(self)@[i as int],
            ),
    {
        let a = self.bits[i];
        let b = self.bits[j];
        self.bits.set(i, b);
        self.bits.set(j, a);
    }

    /// Reverses the order of the bits in `lo..hi`.
    pub fn reverse_range(&mut self, lo: usize, hi: usize)
        requires
            lo <= hi <= old(self)@.len(),
        ensures
            final(self)@ == reversed_range(old(self)@, lo as int, hi as int),
    {
        let ghost s = self@;
        let mut bits: Vec<bool> = Vec::new();
        let mut k: usize = 0;
        while k < self.bits.len()
            invariant
                self@ == s,
                lo <= hi <= s.len(),
                k <= s.len(),
                bits@ == reversed_range(s, lo as int, hi as int).subrange(0, k as int),
            decreases s.len() - k,
        {
            let b = if lo <= k && k < hi {
                self.bits[hi - 1 - (k - lo)]
            } else {
                self.bits[k]
            };
            bits.push(b);
            k += 1;
            assert(bits@ =~= reversed_range(s, lo as int, hi as int).subrange(0, k as int));
        }
        assert(bits@ =~= reversed_range(s, lo as int, hi as int));
        self.bits = bits;
    }

    /// Flips the bits in `lo..hi`.
    pub fn invert_range(&mut self, lo: usize, hi: usize)
        requires
            lo <= hi <= old(self)@.len(),
        ensures
            final(self)@ == inverted_range(old(self)@, lo as int, hi as int),
    {
        let ghost s = self@;
        let mut k: usize = lo;
        while k < hi
            invariant
                lo <= k <= hi <= s.len(),
                self@ == inverted_range(s, lo as int, k as int),
            decreases hi - k,
        {
            let b = self.bits[k];
            self.bits.set(k, !b);
            k += 1;
            assert(self@ =~= inverted_range(s, lo as int, k as int));
        }
    }

    /// Writes `value` into every bit.
    pub fn set_all(&mut self, value: bool)
        ensures
            final(self)@ == Seq::new(old(self)@.len(), |i: int| value),
    {
        let ghost s = self@;
        let mut k: usize = 0;
        while k < self.bits.len()
            invariant
                k <= s.len(),
                self@.len() == s.len(),
                forall|i: int| 0 <= i < k ==> self@[i] == value,
            decreases s.len() - k,
        {
            self.bits.set(k, value);
            k += 1;
        }
        assert(self@ =~= Seq::new(s.len(), |i: int| value));
    }

    /// Writes the bits of `src` over this list from `dest` on.
    pub fn copy_range_from(&mut self, dest: usize, src: &BitList)
        requires
            dest + src@.len() <= old(self)@.len(),
        ensures
            final(self)@ == overwritten(old(self)@, dest as int, src@),
    {
        let ghost s = self@;
        let n = self.bits.len();
        let mut k: usize = 0;
        while k < src.bits.len()
            invariant
                n == s.len(),
                dest + src@.len() <= s.len(),
                k <= src@.len(),
                self@ == overwritten(s, dest as int, src@.subrange(0, k as int)),
            decreases src@.len() - k,
        {
            self.bits.set(dest + k, src.bits[k]);
            k += 1;
            assert(self@ =~= overwritten(s, dest as int, src@.subrange(0, k as int)));
        }
        assert(src@.subrange(0, src@.len() as int) =~= src@);
    }

    /// Replaces every bit with the bit of `src` at the same index.
    pub fn copy_from(&mut self, src: &BitList)
        requires
            src@.len() == old(self)@.len(),
        ensures
            final(self)@ == src@,
    {
        self.copy_range_from(0, src);
        assert(self@ =~= src@);
    }

    /// Copies the bits in `lo..hi` to the range that begins at `dest`.
    pub fn copy_within(&mut self, lo: usize, hi: usize, dest: usize)
        requires
            lo <= hi <= old(self)@.len(),
            dest + (hi - lo) <= old(self)@.len(),
        ensures
            final(self)@ == overwritten(old(self)@, dest as int, old(self)@.subrange(lo as int, hi as int)),
    {
        let src = self.range(lo, hi);
        self.copy_range_from(dest, &src);
    }

    /// Moves every bit `by` places toward index `0`; zeros enter at the end.
    pub fn shift_left(&mut self, by: usize)
        requires
            by <= old(self)@.len(),
        ensures
            final(self)@ == shifted_left(old(self)@, by as int),
    {
        let ghost s = self@;
        let mut bits: Vec<bool> = Vec::new();
        let mut k: usize = 0;
        while k < self.bits.len()
            invariant
                self@ == s,
                by <= s.len(),
                k <= s.len(),
                bits@ == shifted_left(s, by as int).subrange(0, k as int),
            decreases s.len() - k,
        {
            let b = if k < self.bits.len() - by {
                self.bits[k + by]
            } else {
                false
            };
            bits.push(b);
            k += 1;
            assert(bits@ =~= shifted_left(s, by as int).subrange(0, k as int));
        }
        assert(bits@ =~= shifted_left(s, by as int));
        self.bits = bits;
    }

    /// Moves every bit `by` places away from index `0`; zeros enter at the
    /// front.
    pub fn shift_right(&mut self, by: usize)
        requires
            by <= old(self)@.len(),
        ensures
            final(self)@ == shifted_right(old(self)@, by as int),
    {
        let ghost s = self@;
        let mut bits: Vec<bool> = Vec::new();
        let mut k: usize = 0;
        while k < self.bits.len()
            invariant
                self@ == s,
                by <= s.len(),
                k <= s.len(),
                bits@ == shifted_right(s, by as int).subrange(0, k as int),
            decreases s.len() - k,
        {
            let b = if k >= by {
                self.bits[k - by]
            } else {
                false
            };
            bits.push(b);
            k += 1;
            assert(bits@ =~= shifted_right(s, by as int).subrange(0, k as int));
        }
        assert(bits@ =~= shifted_right(s, by as int));
        self.bits = bits;
    }

    /// Rotates the bits `by` places toward index `0`.
    pub fn rotate_left(&mut self, by: usize)
        requires
            by <= old(self)@.len(),
        ensures
            final(self)@ == rotated_left(old(self)@, by as int),
    {
        let ghost s = self@;
        let n = self.bits.len();
        let mut bits: Vec<bool> = Vec::new();
        let mut k: usize = 0;
        while k < n
            invariant
                self@ == s,
                n == s.len(),
                by <= n,
                k <= n,
                bits@ == rotated_left(s, by as int).subrange(0, k as int),
            decreases n - k,
        {
            let j: usize = if k < n - by {
                k + by
            } else {
                k - (n - by)
            };
            assert(j as int == (k + by) % (n as int)) by {
                if k < n - by {
                    vstd::arithmetic::div_mod::lemma_small_mod((k + by) as nat, n as nat);
                } else {
                    vstd::arithmetic::div_mod::lemma_fundamental_div_mod_converse(
                        (k + by) as int,
                        n as int,
                        1,
                        (k + by - n) as int,
                    );
                }
            }
            bits.push(self.bits[j]);
            k += 1;
            assert(bits@ =~= rotated_left(s, by as int).subrange(0, k as int));
        }
        assert(bits@ =~= rotated_left(s, by as int));
        self.bits = bits;
    }

    /// Rotates the bits `by` places away from index `0`.
    pub fn rotate_right(&mut self, by: usize)
        requires
            by <= old(self)@.len(),
        ensures
            final(self)@ == rotated_left(old(self)@, old(self)@.len() - by),
    {
        let n = self.bits.len();
        self.rotate_left(n - by);
    }

    /// `n` copies of this list, one after the other.
    pub fn repeat(&self, n: usize) -> (r: BitList)
        requires
            self@.len() * n <= usize::MAX,
        ensures
            r@ == repeated(self@, n as int),
    {
        let len = self.bits.len();
        let mut bits: Vec<bool> = Vec::new();
        let mut c: usize = 0;
        while c < n
            invariant
                len == self@.len(),
                len * n <= usize::MAX,
                c <= n,
                bits@ == repeated(self@, c as int),
            decreases n - c,
        {
            let ghost before = bits@;
            let mut k: usize = 0;
            proof {
                assert(len * (c + 1) == len * c + len) by (nonlinear_arith);
                assert(len * (c + 1) <= len * n) by (nonlinear_arith)
                    requires
                        c + 1 <= n,
                ;
            }
            while k < len
                invariant
                    len == self@.len(),
                    len * c + len <= usize::MAX,
                    k <= len,
                    before == repeated(self@, c as int),
                    bits@ == before + self@.subrange(0, k as int),
                decreases len - k,
            {
                bits.push(self.bits[k]);
                k += 1;
                assert(bits@ =~= before + self@.subrange(0, k as int));
            }
            proof {
                assert(self@.subrange(0, len as int) =~= self@);
                assert forall|i: int| 0 <= i < len * (c + 1) implies #[trigger] bits@[i] == self@[i % (len as int)] by {
                    if i < len * c {
                        assert(bits@[i] == before[i]);
                    } else {
                        assert(c * len == len * c) by (nonlinear_arith);
                        assert(len > 0) by (nonlinear_arith)
                            requires
                                len * c <= i < len * (c + 1),
                        ;
                        vstd::arithmetic::div_mod::lemma_fundamental_div_mod_converse(
                            i,
                            len as int,
                            c as int,
                            i - len * c,
                        );
                    }
                }
                assert(bits@ =~= repeated(self@, (c + 1) as int));
            }
            c += 1;
        }
        BitList { bits }
    }

    /// Splits the list at `mid`: the bits before it and the bits from it on.
    pub fn split_at(&self, mid: usize) -> (r: (BitList, BitList))
        requires
            mid <= self@.len(),
        ensures
            r.0@ == self@.subrange(0, mid as int),
            r.1@ == self@.subrange(mid as int, self@.len() as int),
    {
        (self.range(0, mid), self.range(mid, self.bits.len()))
    }

    /// The first bit and the rest, if there is a first bit.
    pub fn split_first(&self) -> (r: Option<(bool, BitList)>)
        ensures
            r is Some <==> self@.len() > 0,
            r matches Some(p) ==> p.0 == self@[0] && p.1@ == self@.subrange(1, self@.len() as int),
    {
        if self.bits.len() == 0 {
            None
        } else {
            Some((self.bits[0], self.range(1, self.bits.len())))
        }
    }

    /// The last bit and the rest, if there is a last bit.
    pub fn split_last(&self) -> (r: Option<(bool, BitList)>)
        ensures
            r is Some <==> self@.len() > 0,
            r matches Some(p) ==> p.0 == self@.last() && p.1@ == self@.subrange(0, self@.len() - 1),
    {
        if self.bits.len() == 0 {
            None
        } else {
            let n = self.bits.len();
            Some((self.bits[n - 1], self.range(0, n - 1)))
        }
    }

    /// This list followed by `other`.
    pub fn concat(&self, other: &BitList) -> (r: BitList)
        requires
            self@.len() + other@.len() <= usize::MAX,
        ensures
            r@ == self@ + other@,
    {
        let mut bits = self.bits.clone();
        let mut k: usize = 0;
        while k < other.bits.len()
            invariant
                k <= other@.len(),
                bits@ == self@ + other@.subrange(0, k as int),
            decreases other@.len() - k,
        {
            bits.push(other.bits[k]);
            k += 1;
            assert(bits@ =~= self@ + other@.subrange(0, k as int));
        }
        assert(other@.subrange(0, other@.len() as int) =~= other@);
        BitList { bits }
    }

    /// Whether this list ends with `pat`.
    pub fn ends_with(&self, pat: &BitList) -> (r: bool)
        ensures
            r == (pat@.len() <= self@.len() && occurs_at(
                self@,
                pat@,
                self@.len() - pat@.len(),
            )),
    {
        if pat.bits.len() > self.bits.len() {
            return false;
        }
        self.occurs_at(pat, self.bits.len() - pat.bits.len())
    }

    /// The bits of the byte registers `elems`, each read under the ordering
    /// `O`.
    pub fn from_elements<O: BitOrder>(elems: &[u8]) -> (r: BitList)
        requires
            elems@.len() * 8 <= usize::MAX,
        ensures
            r@ == elements_bits::<O>(elems@),
    {
        let ghost all = elements_bits::<O>(elems@);
        let mut bits: Vec<bool> = Vec::new();
        let mut e: usize = 0;
        while e < elems.len()
            invariant
                elems@.len() * 8 <= usize::MAX,
                e <= elems@.len(),
                all == elements_bits::<O>(elems@),
                bits@ == all.subrange(0, 8 * e),
            decreases elems@.len() - e,
        {
            let mut j: u8 = 0;
            while j < 8
                invariant
                    e < elems@.len(),
                    elems@.len() * 8 <= usize::MAX,
                    j <= 8,
                    all == elements_bits::<O>(elems@),
                    bits@ == all.subrange(0, 8 * e + j),
                decreases 8 - j,
            {
                proof {
                    O::lemma_position_in_range(8, j as int);
                    vstd::arithmetic::div_mod::lemma_fundamental_div_mod_converse(
                        8 * e + j,
                        8,
                        e as int,
                        j as int,
                    );
                }
                let p = O::at(8, j);
                bits.push(elems[e].test(p));
                j += 1;
                assert(bits@ =~= all.subrange(0, 8 * e + j));
            }
            e += 1;
        }
        assert(all.subrange(0, 8 * elems@.len() as int) =~= all);
        BitList { bits }
    }

    /// The byte registers whose bits, read under the ordering `O`, are this
    /// list. Each byte is filled bit by bit through the access operations.
    pub fn to_elements<O: BitOrder>(&self) -> (r: Vec<u8>)
        requires
            self@.len() % 8 == 0,
        ensures
            r@.len() * 8 == self@.len(),
            elements_bits::<O>(r@) == self@,
    {
        let len = self.bits.len();
        let n = len / 8;
        let mut out: Vec<u8> = Vec::new();
        let mut e: usize = 0;
        while e < n
            invariant
                self@.len() <= usize::MAX,
                n * 8 == self@.len(),
                e <= n,
                out@.len() == e,
                elements_bits::<O>(out@) == self@.subrange(0, 8 * e),
            decreases n - e,
        {
            let mut cell = cell_u8_new(<u8 as BitRegister>::zero());
            proof {
                assert forall|t: int| 0 <= t < 8 implies !cell.current().bits()[O::position(8, t)] by {
                    O::lemma_position_in_range(8, t);
                }
            }
            let mut j: u8 = 0;
            while j < 8
                invariant
                    self@.len() <= usize::MAX,
                    e < n,
                    n * 8 == self@.len(),
                    j <= 8,
                    forall|t: int|
                        0 <= t < j ==> cell.current().bits()[O::position(8, t)] == self@[8 * e + t],
                    forall|t: int| j <= t < 8 ==> !cell.current().bits()[O::position(8, t)],
                decreases 8 - j,
            {
                let idx = BitIdx::<u8>::new(j).unwrap();
                let ghost before = cell.current().bits();
                cell.write_bit::<O>(idx, self.bits[8 * e + j as usize]);
                proof {
                    O::lemma_position_in_range(8, j as int);
                    assert forall|t: int| 0 <= t < 8 && t != j implies cell.current().bits()[O::position(8, t)]
                        == before[O::position(8, t)] by {
                        O::lemma_position_injective(8, t, j as int);
                        O::lemma_position_in_range(8, t);
                    }
                }
                j += 1;
            }
            let byte = cell_u8_load(&cell);
            let ghost prev = out@;
            out.push(byte);
            proof {
                assert forall|i: int| 0 <= i < 8 * (e + 1) implies #[trigger] elements_bits::<O>(out@)[i]
                    == self@[i] by {
                    let q = i / 8;
                    let t = i % 8;
                    vstd::arithmetic::div_mod::lemma_fundamental_div_mod(i, 8);
                    if i < 8 * e {
                        assert(elements_bits::<O>(prev)[i] == self@.subrange(0, 8 * e)[i]);
                    } else {
                        vstd::arithmetic::div_mod::lemma_fundamental_div_mod_converse(
                            i,
                            8,
                            e as int,
                            i - 8 * e,
                        );
                    }
                }
                assert(elements_bits::<O>(out@) =~= self@.subrange(0, 8 * (e + 1)));
            }
            e += 1;
        }
        assert(self@.subrange(0, 8 * n) =~= self@);
        out
    }
}

/// At most every bit is set.
pub proof fn lemma_count_true_bound(s: Seq<bool>)
    ensures
        count_true(s) <= s.len(),
    decreases s.len(),
{
    if s.len() > 0 {
        lemma_count_true_bound(s.drop_last());
    }
}

} // verus!
