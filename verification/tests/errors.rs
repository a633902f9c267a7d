use jxl_bridge::ErrorSlot;
use jxl_bridge::last_error_length;
use jxl_bridge::last_error_message;
use jxl_bridge::take_last_error;
use jxl_bridge::update_last_error;

#[test]
fn update_then_take() {
    let mut slot = ErrorSlot::new();
    update_last_error(&mut slot, b"boom".to_vec());
    assert_eq!(take_last_error(&mut slot), Some(b"boom".to_vec()));
    assert_eq!(take_last_error(&mut slot), None);
}

#[test]
fn update_overwrites_pending() {
    let mut slot = ErrorSlot::new();
    update_last_error(&mut slot, b"first".to_vec());
    update_last_error(&mut slot, b"second".to_vec());
    assert_eq!(take_last_error(&mut slot), Some(b"second".to_vec()));
}

#[test]
fn length_is_a_peek_and_stable() {
    let mut slot = ErrorSlot::new();
    assert_eq!(last_error_length(&slot), 0);
    update_last_error(&mut slot, b"abc".to_vec());
    assert_eq!(last_error_length(&slot), 4);
    assert_eq!(last_error_length(&slot), 4);
}

#[test]
fn read_returns_message_once() {
    let mut slot = ErrorSlot::new();
    update_last_error(&mut slot, b"abc".to_vec());
    let mut buf = vec![9u8; 10];
    assert_eq!(last_error_message(&mut slot, &mut buf), 3);
    assert_eq!(&buf[..4], b"abc\0");
    assert_eq!(&buf[4..], &[9u8; 6]);
    let mut buf2 = vec![9u8; 10];
    assert_eq!(last_error_message(&mut slot, &mut buf2), 0);
    assert_eq!(buf2, vec![9u8; 10]);
}

#[test]
fn overflow_read_fails_and_clears() {
    let mut slot = ErrorSlot::new();
    update_last_error(&mut slot, b"abcdef".to_vec());
    assert_eq!(last_error_length(&slot), 7);
    let mut small = vec![0u8; 6];
    assert_eq!(last_error_message(&mut slot, &mut small), -1);
    assert_eq!(small, vec![0u8; 6]);
    assert_eq!(last_error_length(&slot), 0);
}

#[test]
fn exact_fit_succeeds() {
    let mut slot = ErrorSlot::new();
    update_last_error(&mut slot, b"abcdef".to_vec());
    let mut buf = vec![7u8; 7];
    assert_eq!(last_error_message(&mut slot, &mut buf), 6);
    assert_eq!(&buf[..], b"abcdef\0");
}

#[test]
fn read_without_error_is_zero() {
    let mut slot = ErrorSlot::new();
    let mut buf = vec![5u8; 4];
    assert_eq!(last_error_message(&mut slot, &mut buf), 0);
    assert_eq!(buf, vec![5u8; 4]);
}

#[test]
fn empty_message_writes_terminator_only() {
    let mut slot = ErrorSlot::new();
    update_last_error(&mut slot, Vec::new());
    assert_eq!(last_error_length(&slot), 1);
    let mut buf = vec![3u8; 2];
    assert_eq!(last_error_message(&mut slot, &mut buf), 0);
    assert_eq!(&buf[..], &[0u8, 3u8]);
    assert_eq!(last_error_length(&slot), 0);
}
