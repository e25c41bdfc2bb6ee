use glass::pixel::{BayerPattern, PixelData, PixelFormat};

#[test]
fn bytes_per_pixel_of_each_format() {
    assert_eq!(PixelFormat::RGB8.bytes_per_pixel(), 3);
    assert_eq!(PixelFormat::RGBA8.bytes_per_pixel(), 4);
    assert_eq!(PixelFormat::Bayer8(BayerPattern::RGGB).bytes_per_pixel(), 1);
    assert_eq!(PixelFormat::Bayer8(BayerPattern::BGGR).bytes_per_pixel(), 1);
}

#[test]
fn new_buffer_is_zeroed_and_sized() {
    let p = PixelData::new(PixelFormat::RGB8, 4, 3);
    assert_eq!(p.width(), 4);
    assert_eq!(p.height(), 3);
    assert_eq!(p.format(), PixelFormat::RGB8);
    assert_eq!(p.frame_id(), 0);
    assert_eq!(p.size_bytes(), 36);
    assert!(p.as_slice().iter().all(|b| *b == 0));
}

#[test]
fn buffer_size_follows_the_format() {
    let formats = [
        (PixelFormat::Bayer8(BayerPattern::RGGB), 1usize),
        (PixelFormat::Bayer8(BayerPattern::BGGR), 1),
        (PixelFormat::RGB8, 3),
        (PixelFormat::RGBA8, 4),
    ];
    for (format, bpp) in formats {
        let mut p = PixelData::new(format, 5, 7);
        assert_eq!(p.size_bytes(), 5 * 7 * bpp);
        let src = vec![9u8; 5 * 7 * bpp];
        assert_eq!(p.fill_from_slice(&src), Ok(()));
        assert_eq!(p.size_bytes(), p.width() * p.height() * p.format().bytes_per_pixel());
        assert_eq!(p.as_slice(), &src[..]);
    }
}

#[test]
fn empty_image_has_no_bytes() {
    let mut p = PixelData::new(PixelFormat::RGBA8, 0, 10);
    assert_eq!(p.size_bytes(), 0);
    assert_eq!(p.fill_from_slice(&[]), Ok(()));
    assert!(p.fill_from_slice(&[1]).is_err());
}

#[test]
fn fill_copies_the_source() {
    let mut p = PixelData::new(PixelFormat::Bayer8(BayerPattern::BGGR), 3, 2);
    let src = [1u8, 2, 3, 4, 5, 6];
    assert_eq!(p.fill_from_slice(&src), Ok(()));
    assert_eq!(p.as_slice(), &src);
    // Filling does not commit the frame.
    assert_eq!(p.frame_id(), 0);
}

#[test]
fn fill_rejects_a_source_of_another_size() {
    let mut p = PixelData::new(PixelFormat::Bayer8(BayerPattern::BGGR), 3, 2);
    assert_eq!(p.fill_from_slice(&[7, 7, 7, 7, 7, 7]), Ok(()));
    assert_eq!(
        p.fill_from_slice(&[1, 2, 3, 4, 5]),
        Err("Source slice doesn't match PixelData size")
    );
    assert_eq!(
        p.fill_from_slice(&[1, 2, 3, 4, 5, 6, 7]),
        Err("Source slice doesn't match PixelData size")
    );
    assert_eq!(p.as_slice(), &[7, 7, 7, 7, 7, 7]);
    assert_eq!(p.size_bytes(), 6);
}

#[test]
fn new_from_slice_takes_a_matching_source() {
    let src = [10u8, 20, 30, 40, 50, 60, 70, 80, 90, 100, 110, 120];
    let p = PixelData::new_from_slice(PixelFormat::RGB8, 2, 2, &src);
    let p = match p {
        Ok(p) => p,
        Err(e) => panic!("{}", e),
    };
    assert_eq!(p.as_slice(), &src);
    assert_eq!(p.width(), 2);
    assert_eq!(p.height(), 2);
    assert_eq!(p.format(), PixelFormat::RGB8);
    assert_eq!(p.frame_id(), 0);
}

#[test]
fn new_from_slice_rejects_a_short_source() {
    let p = PixelData::new_from_slice(PixelFormat::RGBA8, 2, 2, &[0u8; 15]);
    assert_eq!(p.err(), Some("Source slice doesn't match PixelData size"));
}

#[test]
fn frame_id_counts_up_by_one() {
    let mut p = PixelData::new(PixelFormat::RGB8, 1, 1);
    p.increment_frame_id();
    assert_eq!(p.frame_id(), 1);
    p.increment_frame_id();
    p.increment_frame_id();
    assert_eq!(p.frame_id(), 3);
    assert_eq!(p.size_bytes(), 3);
}

#[test]
fn writing_through_the_mutable_slice_changes_the_image() {
    let mut p = PixelData::new(PixelFormat::Bayer8(BayerPattern::RGGB), 2, 2);
    {
        let s = p.as_mut_slice();
        s[0] = 11;
        s[3] = 44;
    }
    assert_eq!(p.as_slice(), &[11, 0, 0, 44]);
    assert_eq!(p.frame_id(), 0);
}
