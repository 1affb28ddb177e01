use slickscreen::video_recorder::chunked_copy;
use slickscreen::video_recorder::chunked_copy_fits;
use slickscreen::video_recorder::copy_capture;
use slickscreen::video_recorder::PIXEL_SIZE;

#[test]
fn equal_strides_copy_the_whole_buffer() {
    let src: Vec<u8> = (0u8..24).collect();
    let mut dst = vec![0xffu8; 24];
    chunked_copy(&mut dst, 8, &src, 8, 6);
    assert_eq!(dst, src);
}

#[test]
fn source_padding_is_stripped() {
    // three rows of four bytes, each followed by two bytes of padding
    let src: Vec<u8> = vec![
        1, 2, 3, 4, 0xaa, 0xaa, //
        5, 6, 7, 8, 0xbb, 0xbb, //
        9, 10, 11, 12, 0xcc, 0xcc,
    ];
    let mut dst = vec![0u8; 12];
    chunked_copy(&mut dst, 4, &src, 6, 4);
    assert_eq!(dst, vec![1, 2, 3, 4, 5, 6, 7, 8, 9, 10, 11, 12]);
}

#[test]
fn destination_padding_is_kept() {
    let src: Vec<u8> = vec![
        1, 2, 3, 4, 0xaa, 0xaa, //
        5, 6, 7, 8, 0xbb, 0xbb,
    ];
    let mut dst = vec![0x77u8; 16];
    chunked_copy(&mut dst, 8, &src, 6, 4);
    assert_eq!(
        dst,
        vec![
            1, 2, 3, 4, 0x77, 0x77, 0x77, 0x77, //
            5, 6, 7, 8, 0x77, 0x77, 0x77, 0x77,
        ]
    );
}

#[test]
fn narrow_rows_leave_the_rest_of_each_row() {
    let src: Vec<u8> = vec![
        1, 2, 3, 4, 5, //
        6, 7, 8, 9, 10,
    ];
    let mut dst = vec![0u8; 8];
    chunked_copy(&mut dst, 4, &src, 5, 2);
    assert_eq!(dst, vec![1, 2, 0, 0, 6, 7, 0, 0]);
}

#[test]
fn copied_rows_do_not_depend_on_the_padding() {
    let clean: Vec<u8> = vec![
        1, 2, 3, 0, 0, //
        4, 5, 6, 0, 0,
    ];
    let dirty: Vec<u8> = vec![
        1, 2, 3, 0xde, 0xad, //
        4, 5, 6, 0xbe, 0xef,
    ];
    let mut from_clean = vec![9u8; 8];
    let mut from_dirty = vec![9u8; 8];
    chunked_copy(&mut from_clean, 4, &clean, 5, 3);
    chunked_copy(&mut from_dirty, 4, &dirty, 5, 3);
    assert_eq!(from_clean, from_dirty);
    assert_eq!(from_clean, vec![1, 2, 3, 9, 4, 5, 6, 9]);
}

#[test]
fn only_the_rows_that_both_buffers_hold_are_copied() {
    let src: Vec<u8> = vec![1, 2, 3, 4, 5, 6, 7, 8, 9];
    let mut short = vec![0u8; 4];
    chunked_copy(&mut short, 2, &src, 3, 2);
    assert_eq!(short, vec![1, 2, 4, 5]);

    let mut long = vec![0u8; 8];
    chunked_copy(&mut long, 2, &src, 3, 2);
    assert_eq!(long, vec![1, 2, 4, 5, 7, 8, 0, 0]);
}

#[test]
fn a_width_of_zero_copies_nothing() {
    let src: Vec<u8> = vec![1, 2, 3, 4, 5, 6];
    let mut dst = vec![7u8; 4];
    chunked_copy(&mut dst, 2, &src, 3, 0);
    assert_eq!(dst, vec![7, 7, 7, 7]);
}

#[test]
fn empty_buffers_are_copied() {
    let src: Vec<u8> = Vec::new();
    let mut dst: Vec<u8> = Vec::new();
    chunked_copy(&mut dst, 4, &src, 4, 4);
    assert!(dst.is_empty());
    chunked_copy(&mut dst, 4, &src, 6, 4);
    assert!(dst.is_empty());
}

#[test]
fn fits_with_equal_strides_asks_for_equal_lengths() {
    assert!(chunked_copy_fits(24, 8, 24, 8, 6));
    assert!(!chunked_copy_fits(24, 8, 16, 8, 6));
    assert!(chunked_copy_fits(0, 0, 0, 0, 0));
}

#[test]
fn fits_with_unequal_strides_asks_for_whole_rows_that_hold_the_width() {
    assert!(chunked_copy_fits(12, 4, 18, 6, 4));
    assert!(!chunked_copy_fits(12, 4, 18, 6, 5));
    assert!(!chunked_copy_fits(12, 4, 18, 0, 0));
    assert!(!chunked_copy_fits(12, 0, 18, 6, 0));
    assert!(!chunked_copy_fits(13, 4, 18, 6, 4));
    assert!(!chunked_copy_fits(12, 4, 19, 6, 4));
}

#[test]
fn a_padded_capture_is_packed() {
    // two pixels wide, two rows, each row padded to twelve bytes
    let screen: Vec<u8> = vec![
        1, 2, 3, 4, 5, 6, 7, 8, 0xee, 0xee, 0xee, 0xee, //
        9, 10, 11, 12, 13, 14, 15, 16, 0xee, 0xee, 0xee, 0xee,
    ];
    let mut frame = vec![0u8; 16];
    assert!(copy_capture(&mut frame, 8, &screen, 2, 2));
    assert_eq!(
        frame,
        vec![1, 2, 3, 4, 5, 6, 7, 8, 9, 10, 11, 12, 13, 14, 15, 16]
    );
}

#[test]
fn a_tight_capture_is_copied_whole() {
    let screen: Vec<u8> = (1u8..=16).collect();
    let mut frame = vec![0u8; 16];
    assert!(copy_capture(&mut frame, 8, &screen, 2, 2));
    assert_eq!(frame, screen);
}

#[test]
fn a_capture_without_rows_is_not_copied() {
    let screen: Vec<u8> = vec![1, 2, 3, 4];
    let mut frame = vec![0u8; 4];
    assert!(!copy_capture(&mut frame, 4, &screen, 1, 0));
    assert_eq!(frame, vec![0, 0, 0, 0]);
}

#[test]
fn a_capture_that_does_not_fit_is_not_copied() {
    // the frame's rows are too short for two pixels
    let screen: Vec<u8> = vec![0x11u8; 24];
    let mut frame = vec![0u8; 12];
    assert!(!copy_capture(&mut frame, 6, &screen, 2, 2));
    assert_eq!(frame, vec![0u8; 12]);
    // a width whose row length cannot be computed
    assert!(!copy_capture(&mut frame, 6, &screen, usize::MAX / 2, 2));
    assert_eq!(frame, vec![0u8; 12]);
}

#[test]
fn a_pixel_has_four_bytes() {
    assert_eq!(PIXEL_SIZE, 4);
}
