use softplc::bits::Bits;

#[test]
fn bits_from_bytes_is_lsb_first() {
    let b = Bits::from_bytes(&[0b0000_0101, 0x80]);
    assert_eq!(b.len(), 16);
    assert_eq!(b.get(0), Some(true));
    assert_eq!(b.get(1), Some(false));
    assert_eq!(b.get(2), Some(true));
    assert_eq!(b.get(15), Some(true));
    assert_eq!(b.get(16), None);
}

#[test]
fn bits_round_trip_through_bytes() {
    let bytes = vec![0x00u8, 0xff, 0x5a, 0xa5, 0x01, 0x80];
    let b = Bits::from_bytes(&bytes);
    assert_eq!(b.len(), 48);
    assert_eq!(b.to_bytes(), bytes);
}

#[test]
fn bits_from_bools_keeps_order() {
    let bools = vec![true, false, false, true, true, false, true, false, true];
    let b = Bits::from_bools(&bools);
    assert_eq!(b.len(), 9);
    assert_eq!(b.to_bools(), bools);
    assert_eq!(b.get(3), Some(true));
    assert_eq!(b.get(9), None);
}

#[test]
fn bits_to_bytes_packs_least_significant_first() {
    let b = Bits::from_bools(&[true, true, false, false, false, false, false, false]);
    assert_eq!(b.to_bytes(), vec![3u8]);
    let b = Bits::from_bools(&[false, false, false, false, false, false, false, true]);
    assert_eq!(b.to_bytes(), vec![128u8]);
}

#[test]
fn bits_repeat_and_new() {
    assert_eq!(Bits::new().len(), 0);
    assert_eq!(Bits::new().to_bools(), Vec::<bool>::new());
    assert_eq!(Bits::repeat(true, 5).to_bools(), vec![true; 5]);
    assert_eq!(Bits::repeat(false, 3).to_bools(), vec![false; 3]);
    assert_eq!(Bits::repeat(true, 0).len(), 0);
}

#[test]
fn bits_clone_is_independent_copy() {
    let a = Bits::from_bools(&[true, false, true]);
    let b = a.clone();
    assert_eq!(a.to_bools(), b.to_bools());
}
