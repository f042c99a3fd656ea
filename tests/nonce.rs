use std::convert::TryFrom;

use aead_nonce::{Counter, Nonce, Unspecified, NONCE_LEN};

const SAMPLE: [u8; NONCE_LEN] = [0, 1, 2, 3, 4, 5, 6, 7, 8, 9, 10, 11];

#[test]
fn nonce_len_is_twelve() {
    assert_eq!(NONCE_LEN, 12);
}

#[test]
fn all_zero_bytes_round_trip() {
    let nonce = Nonce::try_assume_unique_for_key(&[0x00; 12]).unwrap();
    assert_eq!(nonce.as_ref(), &[0x00; 12]);
}

#[test]
fn eleven_bytes_are_refused() {
    assert_eq!(Nonce::try_assume_unique_for_key(&[0x01; 11]).err(), Some(Unspecified));
    assert_eq!(Nonce::try_from(&[0x01u8; 11][..]).err(), Some(Unspecified));
}

#[test]
fn thirteen_bytes_are_refused() {
    assert_eq!(Nonce::try_assume_unique_for_key(&[0x01; 13]).err(), Some(Unspecified));
    assert_eq!(Nonce::try_from(&[0x01u8; 13][..]).err(), Some(Unspecified));
}

#[test]
fn empty_slice_is_refused() {
    assert_eq!(Nonce::try_assume_unique_for_key(&[]).err(), Some(Unspecified));
    assert_eq!(Nonce::try_from(&[][..]).err(), Some(Unspecified));
}

#[test]
fn checked_constructors_keep_the_bytes() {
    let a = Nonce::try_assume_unique_for_key(&SAMPLE).unwrap();
    assert_eq!(a.as_bytes(), &SAMPLE);
    let b = Nonce::try_from(&SAMPLE[..]).unwrap();
    assert_eq!(b.as_ref(), &SAMPLE);
}

#[test]
fn checked_constructors_take_a_window_of_a_longer_buffer() {
    let buf: Vec<u8> = (0u8..20).collect();
    let a = Nonce::try_assume_unique_for_key(&buf[4..16]).unwrap();
    assert_eq!(a.as_bytes(), &[4, 5, 6, 7, 8, 9, 10, 11, 12, 13, 14, 15]);
    assert!(Nonce::try_from(&buf[4..17]).is_err());
}

#[test]
fn array_round_trip_zero_and_ff() {
    let zero = Nonce::assume_unique_for_key([0x00; 12]);
    assert_eq!(zero.as_ref(), &[0x00; 12]);
    let ff = Nonce::assume_unique_for_key([0xff; 12]);
    assert_eq!(ff.as_ref(), &[0xff; 12]);
    let sample = Nonce::assume_unique_for_key(SAMPLE);
    assert_eq!(sample.as_bytes(), &SAMPLE);
}

#[test]
fn reference_copy_is_independent_of_the_source() {
    let mut source = SAMPLE;
    let nonce = Nonce::from(&source);
    source[0] = 0xaa;
    source[11] = 0xbb;
    assert_eq!(nonce.as_ref(), &SAMPLE);
    assert_ne!(nonce.as_ref(), &source);
}

#[test]
fn counter_value_is_kept() {
    assert_eq!(Counter::new(7).value(), 7);
}

#[test]
fn counter_is_encoded_big_endian_in_the_last_four_bytes() {
    let nonce = Nonce::try_from(&Counter::new(0x0102_0304)).unwrap();
    assert_eq!(nonce.as_ref(), &[0, 0, 0, 0, 0, 0, 0, 0, 1, 2, 3, 4]);
    let max = Nonce::try_from(&Counter::new(u32::MAX)).unwrap();
    assert_eq!(max.as_ref(), &[0, 0, 0, 0, 0, 0, 0, 0, 0xff, 0xff, 0xff, 0xff]);
}

#[test]
fn distinct_counter_values_produce_distinct_nonce_encodings() {
    let a = Nonce::try_from(&Counter::new(1)).unwrap();
    let b = Nonce::try_from(&Counter::new(2)).unwrap();
    assert_ne!(a.as_ref(), b.as_ref());
    let zero = Nonce::try_from(&Counter::new(0)).unwrap();
    let high = Nonce::try_from(&Counter::new(0x0100_0000)).unwrap();
    assert_ne!(zero.as_ref(), high.as_ref());
}
