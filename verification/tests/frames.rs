//! Frames: their size and the buffer that one read leaves behind.

use carrot_client::frame::{has_frame_size, response_frame};
use carrot_client::SIZE;

#[test]
fn frame_size_is_1024() {
    assert_eq!(SIZE, 1024);
}

#[test]
fn only_1024_bytes_have_frame_size() {
    assert!(has_frame_size(&vec![7u8; 1024]));
    assert!(!has_frame_size(&vec![7u8; 1023]));
    assert!(!has_frame_size(&vec![7u8; 1025]));
    assert!(!has_frame_size(&Vec::new()));
}

#[test]
fn short_delivery_is_followed_by_zeros() {
    let frame: Vec<u8> = response_frame(&vec![9u8, 8, 7]);
    assert_eq!(frame.len(), 1024);
    assert_eq!(&frame[..3], &[9u8, 8, 7]);
    assert!(frame[3..].iter().all(|byte| *byte == 0));
}

#[test]
fn single_byte_delivery_fills_one_frame() {
    let frame: Vec<u8> = response_frame(&vec![255u8]);
    let mut expected: Vec<u8> = vec![0u8; 1024];
    expected[0] = 255;
    assert_eq!(frame, expected);
}

#[test]
fn full_delivery_is_kept_as_it_is() {
    let mut delivered: Vec<u8> = Vec::new();
    for i in 0..1024usize {
        delivered.push((i % 251) as u8);
    }
    assert_eq!(response_frame(&delivered), delivered);
}

#[test]
fn empty_delivery_leaves_the_zeroed_buffer() {
    assert_eq!(response_frame(&Vec::new()), vec![0u8; 1024]);
}

#[test]
fn bytes_beyond_one_frame_are_left_out() {
    let mut delivered: Vec<u8> = vec![1u8; 1024];
    delivered.push(2);
    delivered.push(3);
    assert_eq!(response_frame(&delivered), vec![1u8; 1024]);
}
