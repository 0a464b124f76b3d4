use screenshot::error::CaptureError;
use screenshot::frame::Pixel;
use screenshot::frame::Screenshot;

fn sample_frame() -> Screenshot {
    // 2 x 2 pixels, 4 bytes per pixel, no row padding: bytes 0..16.
    let data: Vec<u8> = (0u8..16u8).collect();
    Screenshot::new(data, 2, 2, 8, 4).unwrap()
}

#[test]
fn end_to_end_two_by_two() {
    let f = sample_frame();
    assert_eq!(f.height(), 2);
    assert_eq!(f.width(), 2);
    assert_eq!(f.row_len(), 8);
    assert_eq!(f.pixel_width(), 4);
    assert_eq!(f.raw_len(), 16);
    // get_pixel(1, 1) reads bytes at offset 12..16 in b, g, r, a order.
    let p = f.get_pixel(1, 1);
    assert_eq!(p.b, 12);
    assert_eq!(p.g, 13);
    assert_eq!(p.r, 14);
    assert_eq!(p.a, 15);
}

#[test]
fn geometry_invariant_holds() {
    let f = sample_frame();
    assert!(f.raw_len() >= f.row_len() * f.height());
    assert!(f.row_len() >= f.width() * f.pixel_width());
}

#[test]
fn in_range_pixels_succeed() {
    let f = sample_frame();
    for row in 0..f.height() {
        for col in 0..f.width() {
            let p = f.try_get_pixel(row, col);
            assert!(p.is_some());
            let base = (row * f.row_len() + col * f.pixel_width()) as u8;
            let p = p.unwrap();
            assert_eq!(p.b, base);
            assert_eq!(p.g, base + 1);
            assert_eq!(p.r, base + 2);
            assert_eq!(p.a, base + 3);
        }
    }
}

#[test]
fn out_of_range_pixel_fails_fast() {
    let f = sample_frame();
    assert!(f.try_get_pixel(2, 0).is_none());
    assert!(f.try_get_pixel(0, 2).is_none());
    assert!(f.try_get_pixel(2, 2).is_none());
    assert!(f.try_get_pixel(usize::MAX, usize::MAX).is_none());
}

#[test]
fn pixel_read_idempotent() {
    let f = sample_frame();
    let first = f.get_pixel(0, 1);
    let second = f.get_pixel(0, 1);
    assert_eq!(first, second);
}

#[test]
fn narrow_pixels_are_not_readable() {
    // 2 x 2 pixels of 3 bytes each: too narrow for the four channels.
    let data: Vec<u8> = vec![0; 12];
    let f = Screenshot::new(data, 2, 2, 6, 3).unwrap();
    assert!(f.try_get_pixel(0, 0).is_none());
}

#[test]
fn padded_rows_are_skipped() {
    // 1 x 2 pixels, 4 bytes per pixel, rows padded to 6 bytes.
    let data: Vec<u8> = (10u8..22u8).collect();
    let f = Screenshot::new(data, 1, 2, 6, 4).unwrap();
    assert_eq!(f.row_len(), 6);
    let p = f.get_pixel(1, 0);
    // Row 1 starts at offset 6, past the two padding bytes of row 0.
    assert_eq!(p.b, 16);
    assert_eq!(p.g, 17);
    assert_eq!(p.r, 18);
    assert_eq!(p.a, 19);
}

#[test]
fn rejects_short_buffer() {
    let data: Vec<u8> = vec![0; 15];
    let r = Screenshot::new(data, 2, 2, 8, 4);
    assert_eq!(r.err(), Some(CaptureError::SizeMismatch));
}

#[test]
fn rejects_narrow_stride() {
    // Stride of 7 bytes cannot hold two 4-byte pixels.
    let data: Vec<u8> = vec![0; 16];
    let r = Screenshot::new(data, 2, 2, 7, 4);
    assert_eq!(r.err(), Some(CaptureError::SizeMismatch));
}

#[test]
fn data_exposes_whole_buffer() {
    let f = sample_frame();
    let bytes = f.data();
    assert_eq!(bytes.len(), 16);
    assert_eq!(bytes[0], 0);
    assert_eq!(bytes[15], 15);
}

#[test]
fn pixel_value_semantics() {
    let p = Pixel { a: 1, r: 2, g: 3, b: 4 };
    let q = p;
    assert_eq!(p, q);
}

#[test]
fn error_messages_are_distinct() {
    let all = [
        CaptureError::DisplayEnumerationFailed,
        CaptureError::NoSuchDisplay,
        CaptureError::NonBytePixelDepth,
        CaptureError::SizeMismatch,
        CaptureError::ContextCreationFailed,
        CaptureError::BitmapCreationFailed,
        CaptureError::BitmapSelectionFailed,
        CaptureError::CopyFailed,
        CaptureError::BoundsOverflow,
    ];
    for (i, a) in all.iter().enumerate() {
        for (j, b) in all.iter().enumerate() {
            if i != j {
                assert_ne!(a.message(), b.message());
            }
        }
    }
    assert_eq!(
        CaptureError::NonBytePixelDepth.message(),
        "Pixels aren't integral bytes."
    );
    assert_eq!(
        CaptureError::SizeMismatch.message(),
        "Image size is inconsistent with W*H*D."
    );
}
