use b016m::wire::{MAX_LEN, PREFIX_LEN};
use b016m::{Error, Inner, B016M};

#[test]
fn format_constants() {
    assert_eq!(PREFIX_LEN, 3);
    assert_eq!(MAX_LEN, 16_777_215);
    assert_eq!(MAX_LEN, (1usize << 24) - 1);
}

#[test]
fn slice_is_borrowed() {
    let bytes = [0x41u8, 0x42];
    let value = B016M::try_from(&bytes[..]).unwrap();
    assert!(matches!(value.inner(), Inner::Ref(_)));
    assert_eq!(value.inner().as_ref(), &[0x41u8, 0x42][..]);
}

#[test]
fn slice_is_not_copied() {
    let bytes = vec![7u8; 64];
    let value = B016M::try_from(&bytes[..]).unwrap();
    assert!(std::ptr::eq(value.inner().as_ref(), &bytes[..]));
}

#[test]
fn vector_is_owned() {
    let value = B016M::try_from(vec![1u8, 2, 3]).unwrap();
    assert!(matches!(value.inner(), Inner::Owned(_)));
    assert_eq!(value.inner().as_ref(), &[1u8, 2, 3][..]);
}

#[test]
fn empty_payload_is_accepted() {
    let empty: [u8; 0] = [];
    let borrowed = B016M::try_from(&empty[..]).unwrap();
    let owned = B016M::try_from(Vec::new()).unwrap();
    assert_eq!(borrowed.inner().as_ref().len(), 0);
    assert_eq!(owned.inner().as_ref().len(), 0);
}

#[test]
fn longest_payload_is_accepted() {
    let bytes = vec![0xabu8; 16_777_215];
    let borrowed = B016M::try_from(&bytes[..]).unwrap();
    assert_eq!(borrowed.inner().as_ref().len(), 16_777_215);
    assert_eq!(borrowed.inner().len(), [0xff, 0xff, 0xff]);
    assert_eq!(borrowed.get_len(), 16_777_218);
    let owned = B016M::try_from(bytes.clone()).unwrap();
    assert_eq!(owned.inner().as_ref().len(), 16_777_215);
}

#[test]
fn slice_one_byte_too_long_is_rejected() {
    let bytes = vec![0x5au8; 16_777_216];
    let made = B016M::try_from(&bytes[..]);
    assert_eq!(made, Err(Error::LengthExceeded));
    assert_eq!(bytes.len(), 16_777_216);
    assert!(bytes.iter().all(|b| *b == 0x5a));
}

#[test]
fn vector_one_byte_too_long_is_rejected() {
    let made = B016M::try_from(vec![0u8; 16_777_216]);
    assert_eq!(made, Err(Error::LengthExceeded));
}

#[test]
fn much_longer_payload_is_rejected() {
    let bytes = vec![1u8; 20_000_000];
    assert_eq!(B016M::try_from(&bytes[..]), Err(Error::LengthExceeded));
    assert_eq!(B016M::try_from(bytes), Err(Error::LengthExceeded));
}

#[test]
fn inner_prefix_is_little_endian() {
    assert_eq!(Inner::Owned(Vec::new()).len(), [0, 0, 0]);
    assert_eq!(Inner::Owned(vec![0u8; 1]).len(), [1, 0, 0]);
    assert_eq!(Inner::Owned(vec![0u8; 255]).len(), [255, 0, 0]);
    assert_eq!(Inner::Owned(vec![0u8; 256]).len(), [0, 1, 0]);
    assert_eq!(Inner::Owned(vec![0u8; 65_535]).len(), [255, 255, 0]);
    assert_eq!(Inner::Owned(vec![0u8; 65_536]).len(), [0, 0, 1]);
    assert_eq!(Inner::Owned(vec![0u8; 0x01_23_45]).len(), [0x45, 0x23, 0x01]);
}

#[test]
fn inner_prefix_of_borrowed_bytes() {
    let bytes = vec![9u8; 0x0a_0b];
    assert_eq!(Inner::Ref(&bytes[..]).len(), [0x0b, 0x0a, 0x00]);
}

#[test]
fn inner_prefix_keeps_the_low_three_bytes() {
    let bytes = vec![0u8; 16_777_216 + 0x01_02];
    assert_eq!(Inner::Ref(&bytes[..]).len(), [0x02, 0x01, 0x00]);
    assert_eq!(Inner::Owned(vec![0u8; 16_777_216]).len(), [0, 0, 0]);
}

#[test]
fn inner_as_ref_gives_the_bytes() {
    let bytes = [3u8, 1, 4, 1, 5];
    assert_eq!(Inner::Ref(&bytes[..]).as_ref(), &bytes[..]);
    assert_eq!(Inner::Owned(bytes.to_vec()).as_ref(), &bytes[..]);
}

#[test]
fn wire_length_is_payload_plus_three() {
    for n in [0usize, 1, 2, 3, 255, 256, 257, 65_535, 65_536, 100_000] {
        let value = B016M::try_from(vec![0u8; n]).unwrap();
        assert_eq!(value.get_len(), n + 3);
    }
}
