use pixel_pipeline::frame::FrameBuffer;

#[test]
fn new_fills_every_pixel() {
    let fb = FrameBuffer::new(8, 5, 0x1234);
    assert_eq!(fb.len(), 40);
    for y in 0..5 {
        for x in 0..8 {
            assert_eq!(fb.get(x, y), Some(0x1234));
        }
    }
}

#[test]
fn write_then_read_returns_written_pixel() {
    let mut fb = FrameBuffer::new(16, 16, 0);
    for y in 0..16 {
        for x in 0..16 {
            let p = (y * 16 + x) as u16;
            assert!(fb.set(x, y, p));
            assert_eq!(fb.get(x, y), Some(p));
        }
    }
    // Every earlier write is still intact afterwards.
    for y in 0..16 {
        for x in 0..16 {
            assert_eq!(fb.get(x, y), Some((y * 16 + x) as u16));
        }
    }
}

#[test]
fn out_of_bounds_policy_is_rejection() {
    let mut fb = FrameBuffer::new(4, 3, 9);
    // Writes outside the geometry are refused on either axis and in the corner.
    assert!(!fb.set(4, 0, 1));
    assert!(!fb.set(0, 3, 1));
    assert!(!fb.set(100, 100, 1));
    // Reads outside the geometry see nothing.
    assert_eq!(fb.get(4, 0), None);
    assert_eq!(fb.get(0, 3), None);
    assert_eq!(fb.get(usize::MAX, usize::MAX), None);
    // The buffer is untouched by the rejected writes.
    for y in 0..3 {
        for x in 0..4 {
            assert_eq!(fb.get(x, y), Some(9));
        }
    }
}

#[test]
fn smallest_geometry_works() {
    let mut fb = FrameBuffer::new(1, 1, 5);
    assert_eq!(fb.len(), 1);
    assert!(fb.set(0, 0, 77));
    assert_eq!(fb.get(0, 0), Some(77));
    assert!(!fb.set(1, 0, 1));
    assert!(!fb.set(0, 1, 1));
}

#[test]
fn largest_geometry_works() {
    // 4096 * 4096 is exactly the pixel-count cap.
    let max = pixel_pipeline::frame::MAX_PIXELS;
    assert_eq!(4096 * 4096, max);
    let mut fb = FrameBuffer::new(4096, 4096, 0);
    assert_eq!(fb.len(), max);
    assert!(fb.set(4095, 4095, 0xdead));
    assert_eq!(fb.get(4095, 4095), Some(0xdead));
    assert_eq!(fb.get(0, 0), Some(0));
    assert!(!fb.set(4096, 0, 1));
    assert!(!fb.set(0, 4096, 1));
}

#[test]
fn to_bytes_is_row_major_big_endian() {
    let mut fb = FrameBuffer::new(2, 2, 0);
    assert!(fb.set(0, 0, 0xabcd));
    assert!(fb.set(1, 0, 0x0102));
    assert!(fb.set(0, 1, 0xff00));
    assert!(fb.set(1, 1, 0x00ff));
    let bytes = fb.to_bytes();
    assert_eq!(bytes, vec![0xab, 0xcd, 0x01, 0x02, 0xff, 0x00, 0x00, 0xff]);
}
