use raycast_core::color::Color;
use raycast_core::framebuffer::Framebuffer;

#[test]
fn new_fills_with_red() {
    let fb = Framebuffer::new(3, 2);
    for y in 0..2 {
        for x in 0..3 {
            assert_eq!(fb.get(x, y), Color::rgb(255, 0, 0));
        }
    }
}

#[test]
fn set_writes_one_pixel() {
    let mut fb = Framebuffer::new(4, 4);
    let c = Color::rgb(1, 2, 3);
    fb.set(2, 3, c);
    assert_eq!(fb.get(2, 3), c);
    assert_eq!(fb.get(3, 2), Color::rgb(255, 0, 0));
}

#[test]
fn color_accessors() {
    let c = Color::rgba(9, 8, 7, 6);
    assert_eq!(c.bytes(), (9, 8, 7, 6));
    assert_eq!(Color::rgb(1, 2, 3).bytes(), (1, 2, 3, 255));
}

#[test]
fn ppm_header_multi_digit() {
    let fb = Framebuffer::new(12, 10);
    let bytes = fb.ppm_bytes();
    let header: Vec<u8> = b"P6\n12 10\n255\n".to_vec();
    assert_eq!(&bytes[..header.len()], &header[..]);
    assert_eq!(bytes.len(), header.len() + 12 * 10 * 3);
}

#[test]
fn ppm_of_empty_framebuffer_is_header_only() {
    let fb = Framebuffer::new(0, 0);
    assert_eq!(fb.ppm_bytes(), b"P6\n0 0\n255\n".to_vec());
}

#[test]
fn ppm_round_trip_2x1() {
    let mut fb = Framebuffer::new(2, 1);
    fb.set(0, 0, Color::rgb(10, 20, 30));
    fb.set(1, 0, Color::rgba(40, 50, 60, 0));
    let bytes = fb.ppm_bytes();

    let expected: Vec<u8> = b"P6\n2 1\n255\n\x0a\x14\x1e\x28\x32\x3c".to_vec();
    assert_eq!(bytes, expected);

    // Re-read the emitted bytes: the header and the byte triples
    // reconstruct exactly what was written (alpha is dropped).
    let text_end = 11;
    let header = std::str::from_utf8(&bytes[..text_end]).unwrap();
    let mut lines = header.lines();
    assert_eq!(lines.next(), Some("P6"));
    let mut dims = lines.next().unwrap().split(' ');
    let w: usize = dims.next().unwrap().parse().unwrap();
    let h: usize = dims.next().unwrap().parse().unwrap();
    assert_eq!((w, h), (2, 1));
    assert_eq!(lines.next(), Some("255"));
    let body = &bytes[text_end..];
    assert_eq!(body.len(), w * h * 3);
    assert_eq!(&body[0..3], &[10, 20, 30]);
    assert_eq!(&body[3..6], &[40, 50, 60]);
}
