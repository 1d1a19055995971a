use ffibridge::{pass_data, pass_string, BridgeError, OutBuffer};

fn buffer(cap: usize, mem_len: usize) -> OutBuffer {
    OutBuffer { mem: Some(vec![0xEEu8; mem_len]), size: Some(cap) }
}

#[test]
fn round_trip_fits_exactly() {
    let data = vec![1u8, 2, 3, 4];
    let mut out = buffer(4, 4);
    assert_eq!(pass_data(&data, &mut out), Ok(()));
    assert_eq!(out.size, Some(4));
    assert_eq!(out.mem.unwrap(), data);
}

#[test]
fn round_trip_larger_capacity_keeps_tail() {
    let data = vec![7u8, 8];
    let mut out = buffer(5, 6);
    assert_eq!(pass_data(&data, &mut out), Ok(()));
    assert_eq!(out.size, Some(2));
    assert_eq!(out.mem.unwrap(), vec![7u8, 8, 0xEE, 0xEE, 0xEE, 0xEE]);
}

#[test]
fn empty_data_into_empty_buffer() {
    let mut out = buffer(0, 0);
    assert_eq!(pass_data(&[], &mut out), Ok(()));
    assert_eq!(out.size, Some(0));
    assert_eq!(out.mem.unwrap(), Vec::<u8>::new());
}

#[test]
fn undersized_buffer_is_untouched_and_reports_size() {
    let data = vec![1u8, 2, 3, 4, 5];
    let mut out = buffer(3, 3);
    assert_eq!(pass_data(&data, &mut out), Err(BridgeError::BufferTooSmall { required: 5 }));
    assert_eq!(out.size, Some(5));
    assert_eq!(out.mem.as_ref().unwrap(), &vec![0xEEu8; 3]);

    let required = out.size.unwrap();
    let mut retry = buffer(required, required);
    assert_eq!(pass_data(&data, &mut retry), Ok(()));
    assert_eq!(retry.size, Some(5));
    assert_eq!(retry.mem.unwrap(), data);
}

#[test]
fn zero_capacity_with_data_fails() {
    let mut out = buffer(0, 0);
    assert_eq!(pass_data(&[9], &mut out), Err(BridgeError::BufferTooSmall { required: 1 }));
    assert_eq!(out.size, Some(1));
}

#[test]
fn missing_memory_is_invalid_argument() {
    let mut out = OutBuffer { mem: None, size: Some(10) };
    assert_eq!(pass_data(&[1, 2], &mut out), Err(BridgeError::InvalidArgument));
    assert_eq!(out.size, Some(10));
}

#[test]
fn missing_size_cell_is_invalid_argument() {
    let mut out = OutBuffer { mem: Some(vec![0u8; 4]), size: None };
    assert_eq!(pass_data(&[1, 2], &mut out), Err(BridgeError::InvalidArgument));
    assert_eq!(out.mem.unwrap(), vec![0u8; 4]);
    assert_eq!(out.size, None);
}

#[test]
fn capacity_beyond_memory_is_invalid_argument() {
    let mut out = buffer(8, 4);
    assert_eq!(pass_data(&[1, 2], &mut out), Err(BridgeError::InvalidArgument));
    assert_eq!(out.size, Some(8));
    assert_eq!(out.mem.unwrap(), vec![0xEEu8; 4]);
}

#[test]
fn string_is_handed_off_as_utf8() {
    let mut out = buffer(16, 16);
    assert_eq!(pass_string("{\"a\":1}", &mut out), Ok(()));
    assert_eq!(out.size, Some(7));
    assert_eq!(&out.mem.unwrap()[..7], b"{\"a\":1}");
}

#[test]
fn string_undersized_reports_byte_length() {
    let mut out = buffer(1, 1);
    assert_eq!(pass_string("é", &mut out), Err(BridgeError::BufferTooSmall { required: 2 }));
    assert_eq!(out.size, Some(2));
}
