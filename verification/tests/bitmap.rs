use shotview::bitmap::SourceBitmap;

#[test]
fn from_raw_accepts_the_exact_length() {
    let data: Vec<u8> = (0..24).collect();
    let bitmap = SourceBitmap::from_raw(3, 2, data).expect("3 * 2 * 4 bytes");
    assert_eq!(bitmap.width(), 3);
    assert_eq!(bitmap.height(), 2);
    assert_eq!(bitmap.get_pixel(0, 0), [0, 1, 2, 3]);
    assert_eq!(bitmap.get_pixel(2, 0), [8, 9, 10, 11]);
    assert_eq!(bitmap.get_pixel(0, 1), [12, 13, 14, 15]);
    assert_eq!(bitmap.get_pixel(2, 1), [20, 21, 22, 23]);
}

#[test]
fn from_raw_refuses_a_short_buffer() {
    assert!(SourceBitmap::from_raw(3, 2, vec![0u8; 23]).is_none());
    assert!(SourceBitmap::from_raw(1, 1, Vec::new()).is_none());
}

#[test]
fn from_raw_refuses_a_long_buffer() {
    assert!(SourceBitmap::from_raw(3, 2, vec![0u8; 25]).is_none());
    assert!(SourceBitmap::from_raw(0, 5, vec![0u8; 4]).is_none());
}

#[test]
fn from_raw_refuses_a_size_beyond_the_address_space() {
    assert!(SourceBitmap::from_raw(u32::MAX, u32::MAX, vec![0u8; 16]).is_none());
}

#[test]
fn from_raw_accepts_an_empty_image() {
    let bitmap = SourceBitmap::from_raw(0, 9, Vec::new()).expect("no pixels, no bytes");
    assert_eq!(bitmap.width(), 0);
    assert_eq!(bitmap.height(), 9);
}
