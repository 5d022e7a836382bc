use protogen_face::video::VideoFrame;

#[test]
fn get_pixel_reads_packed_rgb() {
    // A 2 x 2 frame: four pixels, three bytes each.
    let data = vec![
        1, 2, 3, 4, 5, 6, //
        7, 8, 9, 10, 11, 12,
    ];
    let frame = VideoFrame::new(2, 2, data);
    assert_eq!(frame.get_pixel(0, 0), (1, 2, 3));
    assert_eq!(frame.get_pixel(1, 0), (4, 5, 6));
    assert_eq!(frame.get_pixel(0, 1), (7, 8, 9));
    assert_eq!(frame.get_pixel(1, 1), (10, 11, 12));
}

#[test]
fn get_pixel_outside_the_frame_is_black() {
    let frame = VideoFrame::new(2, 2, vec![9; 12]);
    assert_eq!(frame.get_pixel(2, 0), (0, 0, 0));
    assert_eq!(frame.get_pixel(0, 2), (0, 0, 0));
    assert_eq!(frame.get_pixel(100, 100), (0, 0, 0));
}

#[test]
fn get_pixel_with_short_data_is_black() {
    // The last pixel's bytes are missing: reading it yields black rather
    // than a crash.
    let frame = VideoFrame::new(2, 2, vec![5; 9]);
    assert_eq!(frame.get_pixel(0, 0), (5, 5, 5));
    assert_eq!(frame.get_pixel(1, 1), (0, 0, 0));
}
