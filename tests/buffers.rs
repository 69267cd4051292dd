use ws2812_flexio::{MaybeOwn, PixelStream, PreparedPixels, PreparedPixelsRef, PreprocessedPixels};

#[test]
fn constant_red_strip_of_332_pixels() {
    let mut buf = PreprocessedPixels::<332, 1, 3>::new();
    assert_eq!(buf.capacity(), 332);
    buf.prepare_pixels(vec![PixelStream::new(vec![[255u8, 0, 0]; 332])]);
    let dma = buf.get_dma_data();
    assert_eq!(dma.len(), 332 * 3 + 3);
    for pixel in 0..332 {
        assert_eq!(&dma[pixel * 3..pixel * 3 + 3], &[0, 0x8888_8888, 0]);
    }
    assert_eq!(&dma[996..], &[0, 0, 0]);
}

#[test]
fn short_frame_is_zero_filled() {
    let mut buf = PreprocessedPixels::<10, 2, 3>::new();
    buf.prepare_pixels(vec![PixelStream::new(vec![[1u8, 2, 3]; 10]), PixelStream::new(Vec::new())]);
    buf.prepare_pixels(vec![
        PixelStream::new(vec![[255u8, 255, 255], [255, 255, 255]]),
        PixelStream::new(Vec::new()),
    ]);
    let dma = buf.get_dma_data();
    // Two pixels of three words, one trailing zero word, three words of termination.
    assert_eq!(dma.len(), 7 + 3);
    for k in 0..6 {
        assert_eq!(dma[k], 0x8888_8888);
    }
    assert!(dma[6..].iter().all(|w| *w == 0));
}

#[test]
fn preparing_twice_gives_identical_buffers() {
    let frame = vec![[1u8, 2, 3], [4, 5, 6], [7, 8, 9]];
    let mut a = PreprocessedPixels::<8, 2, 3>::new();
    let mut b = PreprocessedPixels::<8, 2, 3>::new();
    a.prepare_pixels(vec![PixelStream::new(frame.clone()), PixelStream::new(vec![[9u8, 9, 9]])]);
    b.prepare_pixels(vec![PixelStream::new(vec![[200u8, 1, 2]; 8]), PixelStream::new(Vec::new())]);
    a.prepare_pixels(vec![PixelStream::new(frame.clone()), PixelStream::new(vec![[9u8, 9, 9]])]);
    b.prepare_pixels(vec![PixelStream::new(frame.clone()), PixelStream::new(vec![[9u8, 9, 9]])]);
    assert_eq!(a.get_dma_data(), b.get_dma_data());
    a.prepare_pixels(vec![PixelStream::new(frame.clone()), PixelStream::new(vec![[9u8, 9, 9]])]);
    assert_eq!(a.get_dma_data(), b.get_dma_data());
}

#[test]
fn empty_buffer_sends_only_termination() {
    let buf = PreprocessedPixels::<4, 1, 3>::new();
    assert_eq!(buf.get_dma_data(), &[0, 0, 0]);
}

#[test]
fn prepared_pixels_pack_little_endian() {
    let mut buf = PreparedPixels::<4, 3>::new();
    assert_eq!(buf.capacity(), 4);
    buf.prepare_pixels(&vec![[1u8, 2, 3], [4, 5, 6]]);
    assert_eq!(buf.get_dma_buffer(), vec![0x0503_0102, 0x0000_0604]);
}

#[test]
fn prepared_pixels_padding() {
    let mut buf = PreparedPixels::<4, 4>::new();
    buf.prepare_pixels(&vec![[1u8, 2, 3, 4]]);
    assert_eq!(buf.get_dma_buffer(), vec![0x0403_0201, 0]);
    buf.prepare_pixels(&Vec::<[u8; 4]>::new());
    assert_eq!(buf.get_dma_buffer(), vec![0]);
}

#[test]
fn prepared_pixels_truncate_to_capacity() {
    let mut buf = PreparedPixels::<1, 3>::new();
    buf.prepare_pixels(&vec![[1u8, 2, 3], [4, 5, 6]]);
    assert_eq!(buf.get_dma_buffer(), vec![0x0003_0102]);
}

#[test]
fn maybe_own_moves_into_static_storage() {
    let mut m = MaybeOwn::new(41u32);
    assert_eq!(*m.get(), 41);
    let storage: &'static mut Option<u32> = Box::leak(Box::new(None));
    let r = m.convert_to_static_ref(storage);
    assert_eq!(*r, 41);
    assert_eq!(*m.get(), 41);
    let other: &'static mut Option<u32> = Box::leak(Box::new(Some(7)));
    let again = m.convert_to_static_ref(other);
    assert!(std::ptr::eq(r, again));
}
