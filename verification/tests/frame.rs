use camera_capture::DecodedFrame;

fn two_by_two() -> DecodedFrame {
    let pixels: Vec<u8> = vec![
        0x12, 0x34, 0x56, 0xFF, 0xFF, 0xFF, // row 0
        0x00, 0x00, 0x01, 0x80, 0x00, 0x00, // row 1
    ];
    DecodedFrame::from_pixels(2, 2, pixels).unwrap()
}

#[test]
fn frame_needs_three_bytes_per_pixel() {
    assert!(DecodedFrame::from_pixels(2, 2, vec![0; 11]).is_none());
    assert!(DecodedFrame::from_pixels(2, 2, vec![0; 12]).is_some());
    assert!(DecodedFrame::from_pixels(u32::MAX, u32::MAX, vec![0; 12]).is_none());
}

#[test]
fn frame_of_no_pixels_is_empty() {
    let frame = DecodedFrame::from_pixels(0, 5, vec![1, 2, 3]).unwrap();
    assert_eq!(frame.width(), 0);
    assert_eq!(frame.height(), 5);
    assert!(frame.pixels().is_empty());
    assert!(frame.packed_rgb().is_empty());
    assert_eq!(frame.pixel(0, 0), None);
}

#[test]
fn frame_keeps_the_leading_bytes() {
    let frame = DecodedFrame::from_pixels(1, 1, vec![7, 8, 9, 10]).unwrap();
    assert_eq!(frame.pixels(), &vec![7u8, 8, 9]);
}

#[test]
fn pixel_is_read_row_by_row() {
    let frame = two_by_two();
    assert_eq!(frame.pixel(0, 0), Some((0x12, 0x34, 0x56)));
    assert_eq!(frame.pixel(1, 0), Some((0xFF, 0xFF, 0xFF)));
    assert_eq!(frame.pixel(0, 1), Some((0x00, 0x00, 0x01)));
    assert_eq!(frame.pixel(1, 1), Some((0x80, 0x00, 0x00)));
}

#[test]
fn pixel_outside_the_grid_is_none() {
    let frame = two_by_two();
    assert_eq!(frame.pixel(2, 0), None);
    assert_eq!(frame.pixel(0, 2), None);
    assert_eq!(frame.pixel(u32::MAX, u32::MAX), None);
}

#[test]
fn packed_words_hold_red_green_blue() {
    let frame = two_by_two();
    assert_eq!(frame.packed_rgb(), vec![0x0012_3456u32, 0x00FF_FFFF, 0x0000_0001, 0x0080_0000]);
}

#[test]
fn packed_word_sits_at_row_times_width_plus_column() {
    let pixels: Vec<u8> = (0u8..18).collect();
    let frame = DecodedFrame::from_pixels(3, 2, pixels).unwrap();
    let words = frame.packed_rgb();
    assert_eq!(words.len(), 6);
    let (red, green, blue) = frame.pixel(2, 1).unwrap();
    let expected: u32 = (u32::from(red) << 16) | (u32::from(green) << 8) | u32::from(blue);
    assert_eq!(words[1 * 3 + 2], expected);
    assert_eq!(words[5], 0x000F_1011);
}

#[test]
fn size_and_bytes_are_reported() {
    let frame = two_by_two();
    assert_eq!(frame.width(), 2);
    assert_eq!(frame.height(), 2);
    assert_eq!(frame.pixels().len(), 12);
    assert_eq!(frame.into_pixels().len(), 12);
}
