use flight_core::communication::TxBuffer;
use flight_core::utils::{fill_with_bytes, fill_with_str};

#[test]
fn new_buffer_is_empty() {
    let buffer = TxBuffer::new(16);
    assert_eq!(buffer.len(), 0);
    assert_eq!(buffer.capacity(), 16);
    assert_eq!(buffer.remaining(), 16);
    assert_eq!(buffer.as_slice(), &[] as &[u8]);
}

#[test]
fn fill_with_bytes_appends() {
    let mut buffer = TxBuffer::new(8);
    fill_with_bytes(&mut buffer, &[1, 2, 3]);
    fill_with_bytes(&mut buffer, &[]);
    fill_with_bytes(&mut buffer, &[4, 5]);
    assert_eq!(buffer.as_slice(), &[1, 2, 3, 4, 5]);
    assert_eq!(buffer.len(), 5);
    assert_eq!(buffer.remaining(), 3);
    assert_eq!(buffer.capacity(), 8);
}

#[test]
fn fill_with_str_appends_utf8() {
    let mut buffer = TxBuffer::new(32);
    fill_with_str(&mut buffer, "dt=");
    fill_with_str(&mut buffer, "10ms");
    assert_eq!(buffer.as_slice(), b"dt=10ms");
    fill_with_str(&mut buffer, "\u{b0}");
    assert_eq!(buffer.as_slice(), &[b'd', b't', b'=', b'1', b'0', b'm', b's', 0xc2, 0xb0]);
}

#[test]
fn fill_up_to_the_brim() {
    let mut buffer = TxBuffer::new(4);
    fill_with_str(&mut buffer, "ab");
    fill_with_bytes(&mut buffer, &[b'c', b'd']);
    assert_eq!(buffer.as_slice(), b"abcd");
    assert_eq!(buffer.remaining(), 0);
}

#[test]
fn extend_refuses_what_does_not_fit() {
    let mut buffer = TxBuffer::new(4);
    assert_eq!(buffer.extend_from_slice(&[1, 2, 3]), Ok(()));
    assert_eq!(buffer.extend_from_slice(&[4, 5]), Err(()));
    assert_eq!(buffer.as_slice(), &[1, 2, 3]);
    assert_eq!(buffer.extend_from_slice(&[4]), Ok(()));
    assert_eq!(buffer.extend_from_slice(&[5]), Err(()));
    assert_eq!(buffer.extend_from_slice(&[]), Ok(()));
    assert_eq!(buffer.as_slice(), &[1, 2, 3, 4]);
}

#[test]
fn zero_capacity_holds_nothing() {
    let mut buffer = TxBuffer::new(0);
    assert_eq!(buffer.extend_from_slice(&[1]), Err(()));
    assert_eq!(buffer.extend_from_slice(&[]), Ok(()));
    assert_eq!(buffer.len(), 0);
}

#[test]
fn clear_keeps_the_capacity() {
    let mut buffer = TxBuffer::new(3);
    fill_with_bytes(&mut buffer, &[9, 9, 9]);
    buffer.clear();
    assert_eq!(buffer.len(), 0);
    assert_eq!(buffer.capacity(), 3);
    fill_with_bytes(&mut buffer, &[1, 2, 3]);
    assert_eq!(buffer.as_slice(), &[1, 2, 3]);
}
