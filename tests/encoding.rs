use ws2812_flexio::{
    InterleavedPixels, IntoPixelStream, LinSrgb8, Pixel, PixelBytes, PixelStream, PixelStreamRef,
};

fn drain(mut b: PixelBytes) -> Vec<u8> {
    let mut out = Vec::new();
    while let Some(x) = b.next() {
        out.push(x);
    }
    out
}

fn drain_stream<S: PixelStreamRef>(s: &mut S) -> Vec<u8> {
    let mut out = Vec::new();
    while let Some(x) = s.next() {
        out.push(x);
    }
    out
}

fn drain_words<S: PixelStreamRef>(mut it: InterleavedPixels<S>) -> Vec<u32> {
    let mut out = Vec::new();
    while let Some(w) = it.next() {
        out.push(w);
    }
    out
}

fn lane_byte(word: u32, lane: u32) -> u8 {
    let mut b: u8 = 0;
    for j in 0..8 {
        b |= (((word >> (4 * j + 3 - lane)) & 1) as u8) << j;
    }
    b
}

#[test]
fn rgb_is_sent_as_grb() {
    assert_eq!(drain([10u8, 20, 30].get_ws2812_bytes()), vec![20, 10, 30]);
}

#[test]
fn rgbw_is_sent_unchanged() {
    assert_eq!(drain([10u8, 20, 30, 40].get_ws2812_bytes()), vec![10, 20, 30, 40]);
}

#[test]
fn linear_srgb_is_sent_as_grb() {
    assert_eq!(drain(LinSrgb8::new(10, 20, 30).get_ws2812_bytes()), vec![20, 10, 30]);
}

#[test]
fn pixel_bytes_stop_after_len() {
    let mut b = PixelBytes::new([1, 2, 3, 4], 2);
    assert_eq!(b.next(), Some(1));
    assert_eq!(b.next(), Some(2));
    assert_eq!(b.next(), None);
    assert_eq!(b.next(), None);
}

#[test]
fn pixel_stream_concatenates_pixels() {
    let mut s = PixelStream::new(vec![[1u8, 2, 3], [4, 5, 6]]);
    assert_eq!(drain_stream(&mut s), vec![2, 1, 3, 5, 4, 6]);
    assert_eq!(s.next(), None);
}

#[test]
fn empty_pixel_stream() {
    let mut s = Vec::<[u8; 4]>::new().into_pixel_stream();
    assert_eq!(s.next(), None);
    assert_eq!(s.next(), None);
}

#[test]
fn interleaver_single_lane() {
    let words = drain_words(InterleavedPixels::new(vec![PixelStream::new(vec![[0u8, 255, 0]])]));
    // GRB: 255, 0, 0; lane 0 sits on bit 3 of every nibble.
    assert_eq!(words, vec![0x8888_8888, 0, 0, 0]);
}

#[test]
fn interleaver_lane_positions() {
    let lanes = vec![
        PixelStream::new(vec![[0u8, 0x80, 0]]),
        PixelStream::new(vec![[0u8, 0x80, 0]]),
        PixelStream::new(vec![[0u8, 0x80, 0]]),
        PixelStream::new(vec![[0u8, 0x01, 0]]),
    ];
    let words = drain_words(InterleavedPixels::new(lanes));
    assert_eq!(words[0], 0x8000_0000 | 0x4000_0000 | 0x2000_0000 | 0x0000_0001);
}

#[test]
fn interleaver_pads_short_lanes_and_ends_with_one_zero_word() {
    let lanes = vec![
        PixelStream::new(vec![[1u8, 2, 3, 4], [5, 6, 7, 8]]),
        PixelStream::new(vec![[9u8, 10, 11, 12]]),
        PixelStream::new(Vec::new()),
    ];
    let words = drain_words(InterleavedPixels::new(lanes));
    assert_eq!(words.len(), 8 + 1);
    assert_eq!(*words.last().unwrap(), 0);
    let lane0 = [1u8, 2, 3, 4, 5, 6, 7, 8];
    let lane1 = [9u8, 10, 11, 12, 0, 0, 0, 0];
    for k in 0..8 {
        assert_eq!(lane_byte(words[k], 0), lane0[k]);
        assert_eq!(lane_byte(words[k], 1), lane1[k]);
        assert_eq!(lane_byte(words[k], 2), 0);
        assert_eq!(lane_byte(words[k], 3), 0);
    }
}

#[test]
fn interleaver_word_value() {
    let lanes = vec![PixelStream::new(vec![[2u8, 1, 0, 0]]), PixelStream::new(vec![[3u8, 0, 0, 0]])];
    let words = drain_words(InterleavedPixels::new(lanes));
    assert_eq!(words[0], 0x80 | 0x44);
    assert_eq!(words[1], 0x8);
    assert_eq!(words.len(), 5);
}

#[test]
fn interleaver_reads_each_lane_once_per_word() {
    let mut it = InterleavedPixels::new(vec![
        PixelStream::new(vec![[1u8, 2, 3, 4]]),
        PixelStream::new(vec![[5u8, 6, 7, 8]]),
    ]);
    let first = it.next().unwrap();
    assert_eq!(lane_byte(first, 0), 1);
    assert_eq!(lane_byte(first, 1), 5);
    let second = it.next().unwrap();
    assert_eq!(lane_byte(second, 0), 2);
    assert_eq!(lane_byte(second, 1), 6);
}

#[test]
fn interleaver_ignores_fifth_lane() {
    let lanes: Vec<PixelStream<[u8; 4]>> =
        (0..5).map(|i| PixelStream::new(vec![[i as u8 + 1, 0, 0, 0]])).collect();
    let words = drain_words(InterleavedPixels::new(lanes));
    for lane in 0..4 {
        assert_eq!(lane_byte(words[0], lane), lane as u8 + 1);
    }
    assert_eq!(words.len(), 5);
}

#[test]
fn interleaver_without_data_sends_only_zero_word() {
    let words = drain_words(InterleavedPixels::new(vec![PixelStream::<[u8; 3]>::new(Vec::new())]));
    assert_eq!(words, vec![0]);
}
