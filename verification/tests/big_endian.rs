use twoliter_tools::big_endian::push_be;

#[test]
fn digits_come_most_significant_first() {
    let mut out = vec![9u8];
    push_be(&mut out, 0x0102, 2);
    push_be(&mut out, 0x0a0b0c0d, 4);
    push_be(&mut out, u64::MAX - 1, 8);
    assert_eq!(
        out,
        vec![9, 1, 2, 0x0a, 0x0b, 0x0c, 0x0d, 255, 255, 255, 255, 255, 255, 255, 254]
    );
}

#[test]
fn narrow_fields_keep_the_low_digits() {
    let mut out = Vec::new();
    push_be(&mut out, 0x010203, 2);
    push_be(&mut out, 7, 0);
    assert_eq!(out, vec![2, 3]);
}

#[test]
fn wide_fields_are_padded_with_zeros() {
    let mut out = Vec::new();
    push_be(&mut out, 0x0102, 5_000_000);
    assert_eq!(out.len(), 5_000_000);
    assert!(out[..4_999_998].iter().all(|b| *b == 0));
    assert_eq!(&out[4_999_998..], &[1, 2]);
}
