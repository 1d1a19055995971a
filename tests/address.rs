use ffibridge::{addr_from_bytes, BridgeError, ADDRESS_LENGTH};

#[test]
fn address_of_exact_length_is_accepted() {
    let data: Vec<u8> = (0..32u8).collect();
    let addr = addr_from_bytes(&data).unwrap();
    assert_eq!(addr.bytes.to_vec(), data);
    assert_eq!(ADDRESS_LENGTH, 32);
}

#[test]
fn address_of_other_lengths_is_rejected() {
    for len in [0usize, 1, 31, 33, 64] {
        let data = vec![0u8; len];
        assert_eq!(addr_from_bytes(&data).err(), Some(BridgeError::InvalidAddress), "length {}", len);
    }
}

#[test]
fn address_copy_does_not_alias_input() {
    let mut data = vec![5u8; 32];
    let addr = addr_from_bytes(&data).unwrap();
    data[0] = 6;
    assert_eq!(addr.bytes[0], 5);
}
