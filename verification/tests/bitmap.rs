use multisig_wallet::bits::Bitmap;

#[test]
fn new_bitmap_is_empty() {
    let b = Bitmap::new();
    for i in 0..=255u8 {
        assert!(!b.test_bit(i));
    }
    assert_eq!(b.count(), 0);
}

#[test]
fn set_then_clear_frees_exactly_that_bit() {
    let mut b = Bitmap::new();
    b.set_bit(3);
    b.set_bit(9);
    b.set_bit(200);
    b.set_bit(77);
    b.clear_bit(9);
    assert!(b.test_bit(3));
    assert!(!b.test_bit(9));
    assert!(b.test_bit(200));
    assert!(b.test_bit(77));
    assert_eq!(b.count(), 3);
}

#[test]
fn count_matches_number_of_set_bits() {
    let mut b = Bitmap::new();
    for i in 0..10u8 {
        b.set_bit(i * 7);
    }
    assert_eq!(b.count(), 10);
}

#[test]
fn first_unset_is_byte_major_first_fit() {
    let mut b = Bitmap::new();
    assert_eq!(b.first_unset(), Some(0));
    b.set_bit(0);
    b.set_bit(1);
    b.set_bit(2);
    assert_eq!(b.first_unset(), Some(3));
    // A hole below higher set bits wins.
    b.set_bit(4);
    b.set_bit(200);
    assert_eq!(b.first_unset(), Some(3));
}

#[test]
fn first_unset_none_when_full() {
    let mut b = Bitmap::new();
    for i in 0..=255u8 {
        b.set_bit(i);
    }
    assert_eq!(b.first_unset(), None);
    assert_eq!(b.count(), 256);
}

#[test]
fn packed_bytes_are_msb_major() {
    let mut b = Bitmap::new();
    b.set_bit(0);
    b.set_bit(7);
    b.set_bit(8);
    b.set_bit(255);
    let bytes = b.to_bytes();
    assert_eq!(bytes[0], 0b1000_0001);
    assert_eq!(bytes[1], 0b1000_0000);
    assert_eq!(bytes[31], 0b0000_0001);
    for i in 2..31 {
        assert_eq!(bytes[i], 0);
    }
}

#[test]
fn from_bytes_round_trips() {
    let mut b = Bitmap::new();
    b.set_bit(5);
    b.set_bit(42);
    b.set_bit(254);
    let c = Bitmap::from_bytes(b.to_bytes());
    for i in 0..=255u8 {
        assert_eq!(b.test_bit(i), c.test_bit(i));
    }
}
