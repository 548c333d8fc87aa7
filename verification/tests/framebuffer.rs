use epd_driver::EpdError;
use epd_driver::framebuffer::Framebuffer;

#[test]
fn create_has_packed_size() {
    let fb = Framebuffer::create(800, 480).unwrap();
    assert_eq!(fb.as_bytes().len(), 48000);
    assert!(fb.as_bytes().iter().all(|&b| b == 0));
    assert_eq!(fb.width(), 800);
    assert_eq!(fb.height(), 480);
}

#[test]
fn create_small_sizes() {
    assert_eq!(Framebuffer::create(8, 1).unwrap().as_bytes().len(), 1);
    assert_eq!(Framebuffer::create(16, 3).unwrap().as_bytes().len(), 6);
    assert_eq!(Framebuffer::create(64, 64).unwrap().as_bytes().len(), 512);
}

#[test]
fn create_rejects_bad_width() {
    assert_eq!(Framebuffer::create(10, 5).unwrap_err(), EpdError::InvalidGeometry);
    assert_eq!(Framebuffer::create(801, 480).unwrap_err(), EpdError::InvalidGeometry);
    assert_eq!(Framebuffer::create(7, 1).unwrap_err(), EpdError::InvalidGeometry);
}

#[test]
fn from_bytes_round_trip() {
    let data: Vec<u8> = (0..48000u32).map(|i| (i % 251) as u8).collect();
    let fb = Framebuffer::from_bytes(800, 480, data.clone()).unwrap();
    assert_eq!(fb.as_bytes(), data.as_slice());
    assert_eq!(fb.width(), 800);
    assert_eq!(fb.height(), 480);
}

#[test]
fn from_bytes_size_mismatch() {
    let short = vec![0u8; 47999];
    assert_eq!(
        Framebuffer::from_bytes(800, 480, short).unwrap_err(),
        EpdError::SizeMismatch
    );
    let long = vec![0u8; 48001];
    assert_eq!(
        Framebuffer::from_bytes(800, 480, long).unwrap_err(),
        EpdError::SizeMismatch
    );
    assert_eq!(
        Framebuffer::from_bytes(800, 480, Vec::new()).unwrap_err(),
        EpdError::SizeMismatch
    );
}

#[test]
fn from_bytes_rejects_bad_width() {
    assert_eq!(
        Framebuffer::from_bytes(12, 4, vec![0u8; 6]).unwrap_err(),
        EpdError::InvalidGeometry
    );
}

#[test]
fn corner_pixel_bits_round_trip() {
    // Single-pixel buffers for the four corner pixels of the 800x480 panel:
    // pixel (x, y) lives in bit 7 - x % 8 of byte y * 100 + x / 8.
    let corners = [(0u32, 0u32), (799, 0), (0, 479), (799, 479)];
    for &(x, y) in corners.iter() {
        let mut data = vec![0u8; 48000];
        let idx = (y as usize) * 100 + (x as usize) / 8;
        data[idx] |= 1 << (7 - (x % 8));
        let fb = Framebuffer::from_bytes(800, 480, data).unwrap();
        assert!(fb.pixel(x, y));
        for &(ox, oy) in corners.iter() {
            if (ox, oy) != (x, y) {
                assert!(!fb.pixel(ox, oy));
            }
        }
    }
}
