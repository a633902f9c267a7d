use jxl_bridge::ErrorSlot;
use jxl_bridge::PixelFormat;
use jxl_bridge::colorspace_tag;
use jxl_bridge::free_array;
use jxl_bridge::free_jxl_oxide;
use jxl_bridge::last_error_length;
use jxl_bridge::last_error_message;
use jxl_bridge::marshal_frame;
use jxl_bridge::new;

#[test]
fn colorspace_tags() {
    assert_eq!(colorspace_tag(PixelFormat::Gray), Some(b"L\0".to_vec()));
    assert_eq!(colorspace_tag(PixelFormat::Graya), Some(b"LA\0".to_vec()));
    assert_eq!(colorspace_tag(PixelFormat::Rgb), Some(b"RGB\0".to_vec()));
    assert_eq!(colorspace_tag(PixelFormat::Rgba), Some(b"RGBA\0".to_vec()));
    assert_eq!(colorspace_tag(PixelFormat::Cmyk), Some(b"CMYK\0".to_vec()));
    assert_eq!(colorspace_tag(PixelFormat::Cmyka), None);
}

#[test]
fn open_garbage_fails_with_message() {
    let mut slot = ErrorSlot::new();
    let session = new(b"definitely not a jxl codestream", &mut slot);
    assert!(session.is_none());
    let len = last_error_length(&slot);
    assert!(len > 1, "expected a non-empty message, got length {len}");
    let mut buf = vec![0u8; len as usize];
    let written = last_error_message(&mut slot, &mut buf);
    assert_eq!(written, len - 1);
    assert!(written > 0);
    assert_eq!(buf[written as usize], 0);
    assert_eq!(last_error_length(&slot), 0);
}

#[test]
fn open_empty_input_fails() {
    let mut slot = ErrorSlot::new();
    assert!(new(&[], &mut slot).is_none());
    assert!(last_error_length(&slot) > 0);
}

#[test]
fn marshal_quantizes_samples_in_order() {
    let samples: Vec<u32> = [0.0f32, 0.5, 1.0, -1.0, 2.0, 0.25]
        .iter()
        .map(|s| s.to_bits())
        .collect();
    let arr = marshal_frame(3, 2, 1, &samples);
    assert_eq!(arr.len, 6);
    assert_eq!(arr.data, vec![0, 128, 255, 0, 255, 64]);
    free_array(Some(arr));
}

#[test]
fn marshal_empty_frame() {
    let samples: Vec<u32> = Vec::new();
    let arr = marshal_frame(0, 7, 3, &samples);
    assert_eq!(arr.len, 0);
    assert!(arr.data.is_empty());
}

#[test]
fn release_null_is_a_no_op() {
    free_jxl_oxide(None);
    free_array(None);
}
