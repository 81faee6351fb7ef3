use cosmicterm::Utf8Carry;

#[test]
fn whole_text_passes_through() {
    let mut c = Utf8Carry::new();
    assert_eq!(c.push("héllo".as_bytes()), "héllo".as_bytes().to_vec());
}

#[test]
fn split_character_is_carried_over() {
    let euro = "\u{20ac}".as_bytes();
    for k in 0..euro.len() {
        let mut c = Utf8Carry::new();
        let mut out = c.push(&euro[..k]);
        assert!(out.is_empty());
        out.extend(c.push(&euro[k..]));
        assert_eq!(out, euro.to_vec());
    }
}

#[test]
fn valid_prefix_is_released_first() {
    let mut c = Utf8Carry::new();
    assert_eq!(c.push(&[b'a', b'b', 0xe2, 0x82]), b"ab".to_vec());
    assert_eq!(c.push(&[0xac, b'c']), vec![0xe2, 0x82, 0xac, b'c']);
}

#[test]
fn invalid_bytes_are_skipped() {
    let mut c = Utf8Carry::new();
    assert_eq!(c.push(&[b'a', 0xff, b'b']), b"ab".to_vec());
    assert_eq!(c.push(&[0xff]), Vec::<u8>::new());
    assert_eq!(c.push(b"z"), b"z".to_vec());
}

#[test]
fn frame_step_splits_around_invalid_sequence() {
    let (valid, rest) = cosmicterm::utf8::frame_step(vec![b'a', b'b', 0xff, b'c'], 2, 1);
    assert_eq!(valid, b"ab".to_vec());
    assert_eq!(rest, b"c".to_vec());
    let (valid, rest) = cosmicterm::utf8::frame_step(vec![b'a', 0xe2, 0x82], 1, 0);
    assert_eq!(valid, b"a".to_vec());
    assert_eq!(rest, vec![0xe2, 0x82]);
}
