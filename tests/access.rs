use bitvec::access::{BitAccess, BitWriter};
use bitvec::register::{BitIdx, BitMask, BitRegister, Lsb0, Msb0};
use bitvec::safe::{
    BitSafe, BitSafeAtomU16, BitSafeAtomU32, BitSafeAtomU64, BitSafeAtomU8, BitSafeAtomUsize,
    BitSafeCellU16, BitSafeCellU32, BitSafeCellU64, BitSafeCellU8, BitSafeCellUsize,
};
use std::cell::Cell;
use std::sync::atomic::{AtomicU16, AtomicU32, AtomicU64, AtomicU8, AtomicUsize, Ordering};

fn idx8(i: u8) -> BitIdx<u8> {
    BitIdx::<u8>::new(i).unwrap()
}

#[test]
fn touch_memory() {
    let mut accessor = Cell::new(0u8);

    accessor.set_bit::<Lsb0>(BitIdx::zero());
    assert_eq!(accessor.get(), 1);

    accessor.set_bits(BitMask::all());
    assert_eq!(accessor.get(), !0);

    accessor.clear_bit::<Lsb0>(BitIdx::zero());
    assert_eq!(accessor.get(), !1);

    accessor.clear_bits(BitMask::all());
    assert_eq!(accessor.get(), 0);

    accessor.invert_bit::<Lsb0>(BitIdx::zero());
    assert_eq!(accessor.get(), 1);
    accessor.invert_bits(BitMask::all());
    assert_eq!(accessor.get(), !1);

    assert!(!accessor.get().test(0));
    assert_eq!(accessor.get(), !1);

    accessor.write_bit::<Lsb0>(idx8(1), false);
    assert_eq!(accessor.get(), !3);

    accessor.write_bits(BitMask::all(), true);
    assert_eq!(accessor.get(), !0);
    accessor.write_bits(BitMask::new(0b1111_1100u8), false);
    assert_eq!(accessor.get() & 0b1111_1100, 0);
    assert_eq!(accessor.get(), 3);

    <Cell<u8> as BitAccess>::get_writer::<Lsb0>(false).write_bit::<Cell<u8>, Lsb0>(
        &mut accessor,
        BitIdx::zero(),
    );
    assert_eq!(accessor.get(), 2);

    accessor.store_value(!1);
    assert_eq!(accessor.get(), !1);
}

#[test]
fn sanity_check_prefetch() {
    assert_eq!(<Cell<u8> as BitAccess>::get_writer::<Msb0>(false), BitWriter::ClearBits);
    assert_eq!(<Cell<u8> as BitAccess>::get_writer::<Msb0>(true), BitWriter::SetBits);
    assert_eq!(<Cell<u8> as BitAccess>::get_writers(false), BitWriter::ClearBits);
    assert_eq!(<Cell<u8> as BitAccess>::get_writers(true), BitWriter::SetBits);
}

#[test]
fn register_walkthrough() {
    let mut reg = Cell::new(0b0000_0000u8);
    reg.set_bit::<Lsb0>(idx8(0));
    assert_eq!(reg.get(), 0b0000_0001);
    reg.set_bits(BitMask::new(0b1111_1111u8));
    assert_eq!(reg.get(), 0b1111_1111);
    reg.clear_bit::<Lsb0>(idx8(0));
    assert_eq!(reg.get(), 0b1111_1110);
    reg.clear_bits(BitMask::new(0b1111_1111u8));
    assert_eq!(reg.get(), 0);
    reg.invert_bit::<Lsb0>(idx8(0));
    assert_eq!(reg.get(), 1);
    reg.invert_bits(BitMask::new(0b1111_1111u8));
    assert_eq!(reg.get(), 0b1111_1110);
}

#[test]
fn write_bit_already_clear() {
    let mut reg = Cell::new(0b1111_1101u8);
    reg.write_bit::<Lsb0>(idx8(1), false);
    assert_eq!(reg.get(), 0b1111_1101);

    let mut reg = Cell::new(0b1111_1111u8);
    reg.write_bit::<Lsb0>(idx8(1), false);
    assert_eq!(reg.get(), 0b1111_1101);
}

#[test]
fn msb0_selects_the_high_bit() {
    let mut reg = Cell::new(0u8);
    reg.set_bit::<Msb0>(idx8(0));
    assert_eq!(reg.get(), 0b1000_0000);
    reg.write_bit::<Msb0>(idx8(7), true);
    assert_eq!(reg.get(), 0b1000_0001);
    reg.invert_bit::<Msb0>(idx8(0));
    assert_eq!(reg.get(), 0b0000_0001);
}

#[test]
fn index_is_bounded_by_width() {
    assert!(BitIdx::<u8>::new(7).is_some());
    assert!(BitIdx::<u8>::new(8).is_none());
    assert!(BitIdx::<u16>::new(15).is_some());
    assert!(BitIdx::<u16>::new(16).is_none());
    assert!(BitIdx::<u32>::new(32).is_none());
    assert!(BitIdx::<u64>::new(63).is_some());
    assert!(BitIdx::<u64>::new(64).is_none());
    assert_eq!(BitIdx::<u8>::new(5).unwrap().value(), 5);
}

#[test]
fn clear_then_set_keeps_unselected_bits() {
    for start in [0u8, 0b1010_0101, 0xff, 0x3c] {
        for mask in [0u8, 0x0f, 0b1001_0010, 0xff] {
            let mut reg = Cell::new(start);
            reg.clear_bits(BitMask::new(mask));
            reg.set_bits(BitMask::new(mask));
            assert_eq!(reg.get(), (start & !mask) | mask);
            assert_eq!(reg.get() & mask, mask);
            assert_eq!(reg.get() & !mask, start & !mask);
        }
    }
}

#[test]
fn inverting_twice_is_identity() {
    let mut reg = Cell::new(0b1100_1010u16);
    let i = BitIdx::<u16>::new(11).unwrap();
    reg.invert_bit::<Lsb0>(i);
    assert_eq!(reg.get(), 0b0000_1000_1100_1010);
    reg.invert_bit::<Lsb0>(i);
    assert_eq!(reg.get(), 0b1100_1010);
    reg.invert_bits(BitMask::all());
    assert_eq!(reg.get(), !0b1100_1010u16);
    reg.invert_bits(BitMask::all());
    assert_eq!(reg.get(), 0b1100_1010);
}

#[test]
fn write_matches_set_and_clear() {
    for start in [0u32, 0xdead_beef, u32::MAX] {
        let i = BitIdx::<u32>::new(17).unwrap();
        let mut a = Cell::new(start);
        let mut b = Cell::new(start);
        a.write_bit::<Lsb0>(i, true);
        b.set_bit::<Lsb0>(i);
        assert_eq!(a.get(), b.get());
        a.write_bit::<Lsb0>(i, false);
        b.clear_bit::<Lsb0>(i);
        assert_eq!(a.get(), b.get());

        let m = BitMask::new(0x00ff_f000u32);
        a.write_bits(m, true);
        b.set_bits(m);
        assert_eq!(a.get(), b.get());
        a.write_bits(m, false);
        b.clear_bits(m);
        assert_eq!(a.get(), b.get());

        let mut c = Cell::new(start);
        let mut d = Cell::new(start);
        <Cell<u32> as BitAccess>::get_writers(true).write_bits(&mut c, m);
        d.set_bits(m);
        assert_eq!(c.get(), d.get());
        <Cell<u32> as BitAccess>::get_writer::<Lsb0>(false).write_bit::<Cell<u32>, Lsb0>(&mut c, i);
        d.clear_bit::<Lsb0>(i);
        assert_eq!(c.get(), d.get());
    }
}

#[test]
fn disjoint_masks_commute() {
    let m1 = BitMask::new(0x0000_0000_ffff_0000u64);
    let m2 = BitMask::new(0x00ff_0000_0000_00ffu64);
    let start = 0x1234_5678_9abc_def0u64;

    let mut a = Cell::new(start);
    a.set_bits(m1);
    a.invert_bits(m2);
    let mut b = Cell::new(start);
    b.invert_bits(m2);
    b.set_bits(m1);
    assert_eq!(a.get(), b.get());
    assert_eq!(a.get(), 0x12cb_5678_ffff_de0f);

    let mut c = Cell::new(start);
    c.clear_bits(m1);
    c.write_bits(m2, true);
    let mut d = Cell::new(start);
    d.write_bits(m2, true);
    d.clear_bits(m1);
    assert_eq!(c.get(), d.get());
}

#[test]
fn wrappers_round_trip() {
    assert_eq!(BitSafeCellU8::new(0xa5).load(), 0xa5);
    assert_eq!(BitSafeCellU16::new(0xbeef).load(), 0xbeef);
    assert_eq!(BitSafeCellU32::new(0xdead_beef).load(), 0xdead_beef);
    assert_eq!(BitSafeCellU64::new(u64::MAX).load(), u64::MAX);
    assert_eq!(BitSafeAtomU8::new(0).load(), 0);
    assert_eq!(BitSafeAtomU16::new(7).load(), 7);
    assert_eq!(BitSafeAtomU32::new(u32::MAX).load(), u32::MAX);
    assert_eq!(BitSafeAtomU64::new(1 << 63).load(), 1 << 63);
}

#[test]
fn wrappers_store_through_exclusive_reference() {
    let mut c = BitSafeCellU8::new(1);
    c.store(2);
    assert_eq!(c.load(), 2);
    assert_eq!(c.value(), 2);

    let mut a = BitSafeAtomU32::new(10);
    a.store(20);
    assert_eq!(a.load(), 20);
    assert_eq!(a.value(), 20);

    let mut w = BitSafeAtomU64::new(3);
    w.store(4);
    assert_eq!(w.value(), 4);
}

#[test]
fn register_ops_per_width() {
    assert_eq!(<u8 as BitRegister>::bit_width(), 8);
    assert_eq!(<u16 as BitRegister>::bit_width(), 16);
    assert_eq!(<u32 as BitRegister>::bit_width(), 32);
    assert_eq!(<u64 as BitRegister>::bit_width(), 64);
    assert_eq!(<u16 as BitRegister>::single(9), 0x0200);
    assert_eq!(<u64 as BitRegister>::ones(), u64::MAX);
    assert_eq!(BitIdx::<u8>::new(2).unwrap().select::<Msb0>().raw(), 0b0010_0000);
    assert_eq!(BitIdx::<u8>::new(2).unwrap().select::<Lsb0>().raw(), 0b0000_0100);
    assert!(0b0100u8.test(2));
    assert!(!0b0100u8.test(3));
}

#[test]
fn atomics_take_the_same_operations() {
    let mut a = AtomicU8::new(0b1111_1101);
    a.write_bit::<Lsb0>(idx8(1), false);
    assert_eq!(a.load(Ordering::Relaxed), 0b1111_1101);
    a.write_bit::<Lsb0>(idx8(1), true);
    assert_eq!(a.load(Ordering::Relaxed), 0xff);
    a.invert_bits(BitMask::new(0x0f));
    assert_eq!(a.load(Ordering::Relaxed), 0xf0);

    let mut b = AtomicU16::new(0);
    b.set_bit::<Msb0>(BitIdx::<u16>::new(0).unwrap());
    assert_eq!(b.load(Ordering::Relaxed), 0x8000);

    let mut c = AtomicU32::new(u32::MAX);
    c.clear_bits(BitMask::new(0xffff_0000));
    assert_eq!(c.load(Ordering::Relaxed), 0x0000_ffff);

    let mut d = AtomicU64::new(5);
    d.store_value(9);
    assert_eq!(d.load(Ordering::Relaxed), 9);
    d.invert_bit::<Lsb0>(BitIdx::<u64>::new(63).unwrap());
    assert_eq!(d.load(Ordering::Relaxed), (1 << 63) | 9);
}

#[test]
fn platform_word_registers() {
    let bits = usize::BITS as u8;
    assert_eq!(<usize as BitRegister>::bit_width(), bits);
    assert!(BitIdx::<usize>::new(bits - 1).is_some());
    assert!(BitIdx::<usize>::new(bits).is_none());
    assert_eq!(<usize as BitRegister>::ones(), usize::MAX);
    assert_eq!(<usize as BitRegister>::zero(), 0);
    assert_eq!(<usize as BitRegister>::single(bits - 1), 1 << (bits - 1));
    assert_eq!(0b1010usize.complement(), !0b1010usize);

    let top = BitIdx::<usize>::new(bits - 1).unwrap();
    let mut c = Cell::new(0usize);
    c.set_bit::<Msb0>(BitIdx::zero());
    assert_eq!(c.get(), 1 << (bits - 1));
    c.write_bit::<Lsb0>(top, false);
    assert_eq!(c.get(), 0);
    c.invert_bits(BitMask::all());
    assert_eq!(c.get(), usize::MAX);
    c.clear_bits(BitMask::new(0xf0));
    assert_eq!(c.get(), !0xf0);

    let mut a = AtomicUsize::new(3);
    a.write_bits(BitMask::new(0b1100), true);
    assert_eq!(a.load(Ordering::Relaxed), 0b1111);
    a.clear_bit::<Lsb0>(BitIdx::zero());
    assert_eq!(a.load(Ordering::Relaxed), 0b1110);

    let mut w = BitSafeCellUsize::new(usize::MAX);
    assert_eq!(w.load(), usize::MAX);
    w.store(12);
    assert_eq!(w.value(), 12);
    let mut x = BitSafeAtomUsize::new(0);
    x.store(99);
    assert_eq!(x.load(), 99);
    assert_eq!(x.value(), 99);
}
