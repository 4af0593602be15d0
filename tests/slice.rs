use bitvec::bitlist::BitList;
use bitvec::register::{Lsb0, Msb0};

fn bits(b: &[u8]) -> BitList {
    let v: Vec<bool> = b.iter().map(|x| *x != 0).collect();
    BitList::from_bools(&v)
}

fn as_bools(b: &[u8]) -> Vec<bool> {
    b.iter().map(|x| *x != 0).collect()
}

#[test]
fn construction() {
    let data = 0u8;
    let view = BitList::from_elements::<Lsb0>(&[data]);
    assert_eq!(view.len(), 8);

    assert_eq!(view.get_range(0, 8).map(|b| b.to_vec()), Some(view.to_vec()));
    assert!(view.get_range(0, !0).is_none());

    let mut data = 0u8;
    let view = BitList::from_elements::<Lsb0>(&[data]);
    assert_eq!(view.get_range(0, 8).map(|b| b.to_elements::<Lsb0>()), Some(vec![data]));
    data = view.to_elements::<Lsb0>()[0];
    assert_eq!(data, 0);
}

#[test]
fn get_set() {
    let mut b = BitList::from_elements::<Lsb0>(&[0u8]);

    for n in 0..8 {
        assert!(!b.get(n).unwrap());
        b.set(n, true);
        assert!(b.get(n).unwrap());
    }

    assert!(b.get(9).is_none());
    assert!(b.get_range(8, 10).is_none());

    assert_eq!(b.first(), Some(true));
    b.set(0, false);
    assert_eq!(b.last(), Some(true));
    let last = b.len() - 1;
    b.set(last, false);

    b.set(1, false);
    assert_eq!(b.to_vec(), as_bools(&[0, 0, 1, 1, 1, 1, 1, 0]));
    assert!(b.get_range(100, b.len()).is_none());
    assert!(b.get_range(0, 100).is_none());

    let mut a = BitList::from_elements::<Msb0>(&[0b0100_0000u8]).range(0, 2);
    let mut c = BitList::from_elements::<Lsb0>(&[0b0000_0001u8]).range(0, 2);
    assert_eq!(a.to_vec(), as_bools(&[0, 1]));
    assert_eq!(c.to_vec(), as_bools(&[1, 0]));
    a.swap_with(&mut c);
    assert_eq!(a.to_vec(), as_bools(&[1, 0]));
    assert_eq!(c.to_vec(), as_bools(&[0, 1]));
}

#[test]
fn memcpy() {
    let mut dst = BitList::repeat_bit(false, 500);
    let src = BitList::repeat_bit(true, 500);

    dst.copy_range_from(10, &src.range(74, 84));
    assert!(dst.range(10, 20).all());
    assert!(dst.range(0, 10).not_any());
    dst.copy_range_from(100, &src.range(36, 436));
    assert_eq!(dst.count_ones(), 410);

    dst.copy_range_from(0, &src.range(10, 500));
    assert!(dst.range(0, 490).all());
    assert!(dst.all());
}

#[test]
fn batch_copy() {
    let mut l = BitList::repeat_bit(false, 500);
    let mut m = BitList::repeat_bit(false, 500);

    let l2 = BitList::repeat_bit(true, 500);
    let m2 = BitList::repeat_bit(true, 500);

    assert!(l.not_any());
    l.copy_from(&l2);
    assert!(l.all());

    assert!(m.not_any());
    m.copy_from(&m2);
    assert!(m.all());
}

#[test]
fn query() {
    let data = [0x0Fu8, !0, 0xF0, 0, 0x0E];
    let b = BitList::from_elements::<Msb0>(&data);

    assert!(b.range(36, 39).all());
    assert!(b.range(4, 20).all());
    assert!(b.range(0, 8).any());
    assert!(b.range(4, 20).any());
    assert!(b.range(32, b.len()).not_all());
    assert!(b.range(0, 4).not_any());
    assert!(b.range(0, 8).some());

    assert_eq!(b.range(1, 7).count_ones(), 3);
    assert_eq!(b.range(1, 7).count_zeros(), 3);
    assert_eq!(b.range(0, 24).count_ones(), 16);
    assert_eq!(b.range(16, b.len()).count_zeros(), 17);

    assert!(!bits(&[0]).contains(&bits(&[0, 1])));
    assert!(bits(&[0, 1, 0]).contains(&bits(&[1, 0])));
    assert!(bits(&[0, 1, 0]).starts_with(&bits(&[0, 1])));
    assert!(bits(&[0, 1, 0]).ends_with(&bits(&[1, 0])));
}

#[test]
fn modify() {
    let mut data = 0b0000_1111u8;

    let mut b = BitList::from_elements::<Lsb0>(&[data]);
    b.swap(3, 4);
    data = b.to_elements::<Lsb0>()[0];
    assert_eq!(data, 0b0001_0111);

    let mut b = BitList::from_elements::<Lsb0>(&[data]);
    b.reverse_range(1, 7);
    data = b.to_elements::<Lsb0>()[0];
    assert_eq!(data, 0b0110_1001);
    let mut b = BitList::from_elements::<Msb0>(&[data]);
    b.reverse_range(1, 7);
    data = b.to_elements::<Msb0>()[0];

    let mut b = BitList::from_elements::<Msb0>(&[data]);
    b.copy_within(2, 4, 0);
    data = b.to_elements::<Msb0>()[0];
    assert_eq!(data, 0b0101_0111);

    let mut b = BitList::from_elements::<Msb0>(&[data]);
    let n = b.len();
    b.copy_within(5, n, 2);
    data = b.to_elements::<Msb0>()[0];
    assert_eq!(data, 0b0111_1111);
}

#[test]
fn split() {
    assert!(BitList::repeat_bit(false, 0).split_first().is_none());
    let (head, rest) = BitList::from_elements::<Lsb0>(&[1u8]).split_first().unwrap();
    assert!(head);
    assert_eq!(rest.to_vec(), vec![false; 7]);

    let mut data = 0u8;
    let mut b = BitList::from_elements::<Lsb0>(&[data]);
    assert!(b.split_first().is_some());
    b.set(0, true);
    data = b.to_elements::<Lsb0>()[0];
    assert_eq!(data, 1);

    assert!(BitList::repeat_bit(false, 0).split_last().is_none());
    let (head, rest) = BitList::from_elements::<Msb0>(&[1u8]).split_last().unwrap();
    assert!(head);
    assert_eq!(rest.to_vec(), vec![false; 7]);

    let mut data = 0u8;
    let mut b = BitList::from_elements::<Msb0>(&[data]);
    assert!(b.split_last().is_some());
    let last = b.len() - 1;
    b.set(last, true);
    data = b.to_elements::<Msb0>()[0];
    assert_eq!(data, 1);

    let data = 0b0000_1111u8;

    let b = BitList::from_elements::<Msb0>(&[data]);
    let (left, right) = b.split_at(4);
    assert!(left.not_any());
    assert!(right.all());

    let (mut left, mut right) = b.split_at(4);
    left.set_all(true);
    right.set_all(false);
    let data = left.concat(&right).to_elements::<Msb0>()[0];
    assert_eq!(data, 0b1111_0000u8);
}

#[test]
fn shift() {
    let mut b = BitList::repeat_bit(true, 6);
    b.shift_left(0);
    b.shift_right(0);
    assert_eq!(b.to_vec(), vec![true; 6]);

    b.shift_left(4);
    assert_eq!(b.to_vec(), as_bools(&[1, 1, 0, 0, 0, 0]));
    b.shift_right(2);
    assert_eq!(b.to_vec(), as_bools(&[0, 0, 1, 1, 0, 0]));
}

#[test]
fn invert() {
    let data = [0u8; 4];
    let mut b = BitList::from_elements::<Lsb0>(&data);

    b.invert_range(2, 6);
    assert!(b.range(2, 6).all());

    b.invert_range(12, 28);
    assert!(b.range(12, 28).all());

    assert_eq!(b.to_elements::<Lsb0>(), vec![0x3C, 0xF0, 0xFF, 0x0F]);
}

#[test]
fn rotate() {
    let mut b = bits(&[0, 1, 0, 0, 1, 0]);

    b.rotate_left(0);
    b.rotate_right(0);
    b.rotate_left(6);
    b.rotate_right(6);

    assert_eq!(b.to_vec(), as_bools(&[0, 1, 0, 0, 1, 0]));

    b.rotate_left(2);
    assert_eq!(b.to_vec(), as_bools(&[0, 0, 1, 0, 0, 1]));
    b.rotate_right(1);
    assert_eq!(b.to_vec(), as_bools(&[1, 0, 0, 1, 0, 0]));
}

#[test]
fn repetition() {
    let b = bits(&[0, 0, 1, 1]);
    let bv = b.repeat(2);
    assert_eq!(bv.to_vec(), as_bools(&[0, 0, 1, 1, 0, 0, 1, 1]));
    assert_eq!(b.repeat(0).len(), 0);
}
