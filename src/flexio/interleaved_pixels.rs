use vstd::prelude::*;

use crate::pixelstream::PixelStreamRef;

verus! {

/// Moves bit `j` of `x` to bit `4 * j`, for the eight bits of a byte.
pub open spec fn spread_bits(x: u32) -> u32 {
    (x & 1) | ((x & 2) << 3u32) | ((x & 4) << 6u32) | ((x & 8) << 9u32) | ((x & 16) << 12u32) | ((x
        & 32) << 15u32) | ((x & 64) << 18u32) | ((x & 128) << 21u32)
}

/// Byte `k` of lane `p`, or `0` where the lane is shorter or absent.
pub open spec fn lane_byte_at(lanes: Seq<Seq<u8>>, p: int, k: int) -> u8 {
    if 0 <= p < lanes.len() && 0 <= k < lanes[p].len() {
        lanes[p][k]
    } else {
        0
    }
}

/// What lane `p` contributes to word `k`: its bits on bit `3 - p` of each nibble.
pub open spec fn lane_word(lanes: Seq<Seq<u8>>, p: int, k: int) -> u32 {
    spread_bits(lane_byte_at(lanes, p, k) as u32) << ((3 - p) as u32)
}

/// Word `k` with the contributions of the first `n` lanes.
pub open spec fn word_prefix(lanes: Seq<Seq<u8>>, k: int, n: nat) -> u32
    decreases n,
{
    if n == 0 {
        0
    } else {
        word_prefix(lanes, k, (n - 1) as nat) | lane_word(lanes, n - 1, k)
    }
}

/// Word `k` of the interleaved stream: byte `k` of every lane.
pub open spec fn word_at(lanes: Seq<Seq<u8>>, k: int) -> u32 {
    word_prefix(lanes, k, lanes.len())
}

/// The length of the longest lane.
pub open spec fn max_len(lanes: Seq<Seq<u8>>) -> nat
    decreases lanes.len(),
{
    if lanes.len() == 0 {
        0
    } else {
        let rest = max_len(lanes.drop_last());
        if lanes.last().len() > rest {
            lanes.last().len()
        } else {
            rest
        }
    }
}

/// The interleaved words of the lanes, one per byte position of the longest lane.
pub open spec fn interleave(lanes: Seq<Seq<u8>>) -> Seq<u32> {
    Seq::new(max_len(lanes), |k: int| word_at(lanes, k))
}

/// Reads back the byte of lane `p` from an interleaved word, most significant
/// bit from the highest nibble.
pub open spec fn deinterleave(word: u32, p: int) -> u8 {
    let s = (3 - p) as u32;
    (((word >> s) & 1) | (((word >> (s + 4)) & 1) << 1u32) | (((word >> (s + 8)) & 1) << 2u32) | (((
    word >> (s + 12)) & 1) << 3u32) | (((word >> (s + 16)) & 1) << 4u32) | (((word >> (s + 20)) & 1)
        << 5u32) | (((word >> (s + 24)) & 1) << 6u32) | (((word >> (s + 28)) & 1) << 7u32)) as u8
}

/// The lanes the interleaver reads: the first four streams.
pub open spec fn lanes_of<S: PixelStreamRef>(streams: Seq<S>) -> Seq<Seq<u8>> {
    Seq::new(
        if streams.len() < 4 {
            streams.len()
        } else {
            4
        },
        |i: int| streams[i].remaining_bytes(),
    )
}

/// `m` is `l` with the first byte of every non-empty lane taken.
pub open spec fn lanes_advanced(l: Seq<Seq<u8>>, m: Seq<Seq<u8>>) -> bool {
    &&& l.len() == m.len()
    &&& forall|p: int|
        0 <= p < l.len() ==> m[p] == if l[p].len() > 0 {
            l[p].drop_first()
        } else {
            l[p]
        }
}

proof fn lemma_max_len_bounds(l: Seq<Seq<u8>>)
    ensures
        forall|p: int| 0 <= p < l.len() ==> l[p].len() <= max_len(l),
        max_len(l) > 0 ==> exists|p: int| 0 <= p < l.len() && l[p].len() == max_len(l),
    decreases l.len(),
{
    if l.len() > 0 {
        lemma_max_len_bounds(l.drop_last());
        assert forall|p: int| 0 <= p < l.len() implies l[p].len() <= max_len(l) by {
            if p < l.len() - 1 {
                assert(l[p] == l.drop_last()[p]);
            }
        }
        if max_len(l) > 0 && max_len(l) != l.last().len() {
            let p = choose|p: int| 0 <= p < l.drop_last().len() && l.drop_last()[p].len() == max_len(l.drop_last());
            assert(l[p] == l.drop_last()[p]);
        }
    }
}

proof fn lemma_max_len_advanced(l: Seq<Seq<u8>>, m: Seq<Seq<u8>>)
    requires
        lanes_advanced(l, m),
    ensures
        max_len(m) == if max_len(l) > 0 {
            max_len(l) - 1
        } else {
            0
        },
    decreases l.len(),
{
    if l.len() > 0 {
        assert(lanes_advanced(l.drop_last(), m.drop_last())) by {
            assert forall|p: int| 0 <= p < l.len() - 1 implies m.drop_last()[p] == if l.drop_last()[p].len() > 0 {
                l.drop_last()[p].drop_first()
            } else {
                l.drop_last()[p]
            } by {
                assert(m.drop_last()[p] == m[p]);
                assert(l.drop_last()[p] == l[p]);
            }
        }
        lemma_max_len_advanced(l.drop_last(), m.drop_last());
        assert(m.last() == m[m.len() - 1]);
    }
}

proof fn lemma_word_prefix_advanced(l: Seq<Seq<u8>>, m: Seq<Seq<u8>>, k: int, n: nat)
    requires
        lanes_advanced(l, m),
        0 <= k,
        n <= l.len(),
    ensures
        word_prefix(m, k, n) == word_prefix(l, k + 1, n),
    decreases n,
{
    if n > 0 {
        lemma_word_prefix_advanced(l, m, k, (n - 1) as nat);
        assert(lane_byte_at(m, n - 1, k) == lane_byte_at(l, n - 1, k + 1));
    }
}

/// Advancing every lane by one byte drops the first interleaved word.
proof fn lemma_interleave_advanced(l: Seq<Seq<u8>>, m: Seq<Seq<u8>>)
    requires
        lanes_advanced(l, m),
        max_len(l) > 0,
    ensures
        interleave(m) == interleave(l).drop_first(),
{
    lemma_max_len_advanced(l, m);
    assert forall|k: int| 0 <= k < interleave(m).len() implies interleave(m)[k] == interleave(l).drop_first()[k] by {
        lemma_word_prefix_advanced(l, m, k, l.len());
    }
    assert(interleave(m) =~= interleave(l).drop_first());
}

proof fn lemma_bits_of_zero()
    ensures
        forall|s: u32| #![trigger (spread_bits(0) << s)] s < 4 ==> spread_bits(0) << s == 0,
{
    assert(spread_bits(0) == 0) by (bit_vector);
    assert forall|s: u32| s < 4 implies (0u32 << s) == 0 by {
        assert((0u32 << s) == 0) by (bit_vector);
    }
}

/// Spreads the eight bits of a byte over the eight nibbles of a word.
fn spread4(x: u8) -> (r: u32)
    ensures
        r == spread_bits(x as u32),
{
    let x0: u32 = x as u32;
    let mut x: u32 = x0;

    x = (x | (x << 12u32)) & 0x000F000F;
    x = (x | (x << 6u32)) & 0x03030303;
    x = (x | (x << 3u32)) & 0x11111111;

    assert(((((((x0 | (x0 << 12u32)) & 0x000F000Fu32) | (((x0 | (x0 << 12u32)) & 0x000F000Fu32)
        << 6u32)) & 0x03030303u32) | (((((x0 | (x0 << 12u32)) & 0x000F000Fu32) | (((x0 | (x0
        << 12u32)) & 0x000F000Fu32) << 6u32)) & 0x03030303u32) << 3u32)) & 0x11111111u32) == ((x0
        & 1) | ((x0 & 2) << 3u32) | ((x0 & 4) << 6u32) | ((x0 & 8) << 9u32) | ((x0 & 16) << 12u32)
        | ((x0 & 32) << 15u32) | ((x0 & 64) << 18u32) | ((x0 & 128) << 21u32))) by (bit_vector)
        requires
            x0 < 256,
    ;
    x
}

/// Merges up to four lanes of bytes into 32-bit words for the shifter, then
/// ends the transmission with one all-zero word.
pub struct InterleavedPixels<S: PixelStreamRef> {
    streams: Vec<S>,
    leftover_trailing_bytes: u8,
}

impl<S: PixelStreamRef> InterleavedPixels<S> {
    /// The lanes as they stand.
    pub closed spec fn lanes(&self) -> Seq<Seq<u8>> {
        lanes_of(self.streams@)
    }

    /// The words still to come.
    pub closed spec fn words(&self) -> Seq<u32> {
        interleave(self.lanes()) + Seq::new(self.leftover_trailing_bytes as nat, |i: int| 0u32)
    }

    /// Interleaves the first four of `streams`; further streams are ignored.
    pub fn new(streams: Vec<S>) -> (r: Self)
        ensures
            r.lanes() == lanes_of(streams@),
            r.words() == interleave(lanes_of(streams@)).push(0),
    {
        let r = Self { streams, leftover_trailing_bytes: 1 };
        assert(r.words() =~= interleave(lanes_of(streams@)).push(0));
        r
    }

    /// The next word; `None` once the trailing zero word has been handed out.
    pub fn next(&mut self) -> (r: Option<u32>)
        ensures
            old(self).words().len() == 0 ==> r.is_none() && final(self).words() == old(self).words(),
            old(self).words().len() > 0 ==> r == Some(old(self).words()[0])
                && final(self).words() == old(self).words().drop_first(),
            lanes_advanced(old(self).lanes(), final(self).lanes()),
    {
        let ghost l = self.lanes();
        let n: usize = if self.streams.len() < 4 {
            self.streams.len()
        } else {
            4
        };
        let mut has_next_data = false;
        let mut next_data: u32 = 0;
        let mut pos: usize = 0;
        proof {
            lemma_bits_of_zero();
        }
        while pos < n
            invariant
                l == old(self).lanes(),
                self.leftover_trailing_bytes == old(self).leftover_trailing_bytes,
                n == l.len(),
                self.streams.len() == old(self).streams.len(),
                pos <= n,
                forall|p: int|
                    pos <= p < self.streams.len() ==> self.streams@[p] == old(self).streams@[p],
                forall|p: int|
                    0 <= p < pos ==> self.streams@[p].remaining_bytes() == if l[p].len() > 0 {
                        l[p].drop_first()
                    } else {
                        l[p]
                    },
                next_data == word_prefix(l, 0, pos as nat),
                has_next_data == exists|p: int| 0 <= p < pos && l[p].len() > 0,
                !has_next_data ==> next_data == 0,
                forall|s: u32| #![trigger (spread_bits(0) << s)] s < 4 ==> spread_bits(0) << s == 0,
            decreases n - pos,
        {
            let d = self.streams[pos].next();
            match d {
                Some(d) => {
                    next_data = next_data | (spread4(d) << (3 - pos as u32));
                    has_next_data = true;
                },
                None => {
                    assert(lane_word(l, pos as int, 0) == spread_bits(0) << ((3 - pos) as u32));
                    assert(next_data | 0 == next_data) by (bit_vector);
                },
            }
            pos += 1;
        }
        let ghost m = self.lanes();
        assert(lanes_advanced(l, m));
        proof {
            lemma_max_len_bounds(l);
        }
        if has_next_data {
            proof {
                let p = choose|p: int| 0 <= p < pos && l[p].len() > 0;
                assert(max_len(l) > 0);
                lemma_interleave_advanced(l, m);
            }
            assert(old(self).words()[0] == word_at(l, 0));
            assert(self.words() =~= old(self).words().drop_first());
            Some(next_data)
        } else if self.leftover_trailing_bytes > 0 {
            assert(max_len(l) == 0);
            assert(m =~= l);
            self.leftover_trailing_bytes -= 1;
            assert(self.words() =~= old(self).words().drop_first());
            Some(next_data)
        } else {
            assert(max_len(l) == 0);
            assert(m =~= l);
            None
        }
    }
}

/// Every interleaved word carries, for each lane, that lane's byte at the same
/// position, most significant bit first; lanes shorter than the longest read
/// as zero. There is one word per byte of the longest lane.
pub proof fn lemma_interleave_deinterleave(lanes: Seq<Seq<u8>>)
    requires
        lanes.len() <= 4,
    ensures
        interleave(lanes).len() == max_len(lanes),
        forall|p: int| 0 <= p < lanes.len() ==> lanes[p].len() <= max_len(lanes),
        max_len(lanes) > 0 ==> exists|p: int| 0 <= p < lanes.len() && lanes[p].len() == max_len(lanes),
        forall|k: int, p: int|
            0 <= k < max_len(lanes) && 0 <= p < lanes.len() ==> deinterleave(interleave(lanes)[k], p)
                == lane_byte_at(lanes, p, k),
{
    lemma_max_len_bounds(lanes);
    assert forall|k: int, p: int|
        0 <= k < max_len(lanes) && 0 <= p < lanes.len() implies deinterleave(interleave(lanes)[k], p)
        == lane_byte_at(lanes, p, k) by {
        let a = lane_byte_at(lanes, 0, k) as u32;
        let b = lane_byte_at(lanes, 1, k) as u32;
        let c = lane_byte_at(lanes, 2, k) as u32;
        let d = lane_byte_at(lanes, 3, k) as u32;
        lemma_word_four_lanes(lanes, k);
        lemma_deinterleave_four(a, b, c, d);
    }
}

proof fn lemma_word_four_lanes(lanes: Seq<Seq<u8>>, k: int)
    requires
        lanes.len() <= 4,
    ensures
        word_at(lanes, k) == (spread_bits(lane_byte_at(lanes, 0, k) as u32) << 3u32) | (spread_bits(
            lane_byte_at(lanes, 1, k) as u32,
        ) << 2u32) | (spread_bits(lane_byte_at(lanes, 2, k) as u32) << 1u32) | (spread_bits(
            lane_byte_at(lanes, 3, k) as u32,
        ) << 0u32),
{
    lemma_bits_of_zero();
    let w0 = spread_bits(lane_byte_at(lanes, 0, k) as u32) << 3u32;
    let w1 = spread_bits(lane_byte_at(lanes, 1, k) as u32) << 2u32;
    let w2 = spread_bits(lane_byte_at(lanes, 2, k) as u32) << 1u32;
    let w3 = spread_bits(lane_byte_at(lanes, 3, k) as u32) << 0u32;
    let n = lanes.len();
    assert(n <= 0 ==> w0 == 0);
    assert(n <= 1 ==> w1 == 0);
    assert(n <= 2 ==> w2 == 0);
    assert(n <= 3 ==> w3 == 0);
    assert(word_prefix(lanes, k, 0) == 0);
    assert(word_prefix(lanes, k, 1) == 0 | w0);
    assert(word_prefix(lanes, k, 2) == (0 | w0) | w1);
    assert(word_prefix(lanes, k, 3) == ((0 | w0) | w1) | w2);
    assert(word_prefix(lanes, k, 4) == (((0 | w0) | w1) | w2) | w3);
    if n == 0 {
        assert(0u32 == w0 | w1 | w2 | w3) by (bit_vector)
            requires
                w0 == 0u32,
                w1 == 0u32,
                w2 == 0u32,
                w3 == 0u32,
        ;
    } else if n == 1 {
        assert((0 | w0) == w0 | w1 | w2 | w3) by (bit_vector)
            requires
                w1 == 0u32,
                w2 == 0u32,
                w3 == 0u32,
        ;
    } else if n == 2 {
        assert((0 | w0) | w1 == w0 | w1 | w2 | w3) by (bit_vector)
            requires
                w2 == 0u32,
                w3 == 0u32,
        ;
    } else if n == 3 {
        assert(((0 | w0) | w1) | w2 == w0 | w1 | w2 | w3) by (bit_vector)
            requires
                w3 == 0u32,
        ;
    } else {
        assert((((0 | w0) | w1) | w2) | w3 == w0 | w1 | w2 | w3) by (bit_vector);
    }
}

proof fn lemma_deinterleave_four(a: u32, b: u32, c: u32, d: u32)
    requires
        a < 256,
        b < 256,
        c < 256,
        d < 256,
    ensures
        ({
            let w = (spread_bits(a) << 3u32) | (spread_bits(b) << 2u32) | (spread_bits(c) << 1u32) | (
            spread_bits(d) << 0u32);
            &&& deinterleave(w, 0) == a as u8
            &&& deinterleave(w, 1) == b as u8
            &&& deinterleave(w, 2) == c as u8
            &&& deinterleave(w, 3) == d as u8
        }),
{
    let sa = spread_bits(a);
    let sb = spread_bits(b);
    let sc = spread_bits(c);
    let sd = spread_bits(d);
    assert(sa == (a & 1) | ((a & 2) << 3u32) | ((a & 4) << 6u32) | ((a & 8) << 9u32) | ((a & 16) << 12u32) | ((a & 32) << 15u32) | ((a & 64) << 18u32) | ((a & 128) << 21u32));
    assert(sb == (b & 1) | ((b & 2) << 3u32) | ((b & 4) << 6u32) | ((b & 8) << 9u32) | ((b & 16) << 12u32) | ((b & 32) << 15u32) | ((b & 64) << 18u32) | ((b & 128) << 21u32));
    assert(sc == (c & 1) | ((c & 2) << 3u32) | ((c & 4) << 6u32) | ((c & 8) << 9u32) | ((c & 16) << 12u32) | ((c & 32) << 15u32) | ((c & 64) << 18u32) | ((c & 128) << 21u32));
    assert(sd == (d & 1) | ((d & 2) << 3u32) | ((d & 4) << 6u32) | ((d & 8) << 9u32) | ((d & 16) << 12u32) | ((d & 32) << 15u32) | ((d & 64) << 18u32) | ((d & 128) << 21u32));
    let w = (sa << 3u32) | (sb << 2u32) | (sc << 1u32) | (sd << 0u32);
    assert((((w >> 3u32) & 1) | (((w >> 7u32) & 1) << 1u32) | (((w >> 11u32) & 1) << 2u32) | (((w >> 15u32) & 1) << 3u32) | (((w >> 19u32) & 1) << 4u32) | (((w >> 23u32) & 1) << 5u32) | (((w >> 27u32) & 1) << 6u32) | (((w >> 31u32) & 1) << 7u32)) == a) by (bit_vector)
        requires
            a < 256,
            sa == (a & 1) | ((a & 2) << 3u32) | ((a & 4) << 6u32) | ((a & 8) << 9u32) | ((a & 16) << 12u32) | ((a & 32) << 15u32) | ((a & 64) << 18u32) | ((a & 128) << 21u32),
            sb == (b & 1) | ((b & 2) << 3u32) | ((b & 4) << 6u32) | ((b & 8) << 9u32) | ((b & 16) << 12u32) | ((b & 32) << 15u32) | ((b & 64) << 18u32) | ((b & 128) << 21u32),
            sc == (c & 1) | ((c & 2) << 3u32) | ((c & 4) << 6u32) | ((c & 8) << 9u32) | ((c & 16) << 12u32) | ((c & 32) << 15u32) | ((c & 64) << 18u32) | ((c & 128) << 21u32),
            sd == (d & 1) | ((d & 2) << 3u32) | ((d & 4) << 6u32) | ((d & 8) << 9u32) | ((d & 16) << 12u32) | ((d & 32) << 15u32) | ((d & 64) << 18u32) | ((d & 128) << 21u32),
            w == (sa << 3u32) | (sb << 2u32) | (sc << 1u32) | (sd << 0u32),
    ;
    assert((((w >> 2u32) & 1) | (((w >> 6u32) & 1) << 1u32) | (((w >> 10u32) & 1) << 2u32) | (((w >> 14u32) & 1) << 3u32) | (((w >> 18u32) & 1) << 4u32) | (((w >> 22u32) & 1) << 5u32) | (((w >> 26u32) & 1) << 6u32) | (((w >> 30u32) & 1) << 7u32)) == b) by (bit_vector)
        requires
            b < 256,
            sa == (a & 1) | ((a & 2) << 3u32) | ((a & 4) << 6u32) | ((a & 8) << 9u32) | ((a & 16) << 12u32) | ((a & 32) << 15u32) | ((a & 64) << 18u32) | ((a & 128) << 21u32),
            sb == (b & 1) | ((b & 2) << 3u32) | ((b & 4) << 6u32) | ((b & 8) << 9u32) | ((b & 16) << 12u32) | ((b & 32) << 15u32) | ((b & 64) << 18u32) | ((b & 128) << 21u32),
            sc == (c & 1) | ((c & 2) << 3u32) | ((c & 4) << 6u32) | ((c & 8) << 9u32) | ((c & 16) << 12u32) | ((c & 32) << 15u32) | ((c & 64) << 18u32) | ((c & 128) << 21u32),
            sd == (d & 1) | ((d & 2) << 3u32) | ((d & 4) << 6u32) | ((d & 8) << 9u32) | ((d & 16) << 12u32) | ((d & 32) << 15u32) | ((d & 64) << 18u32) | ((d & 128) << 21u32),
            w == (sa << 3u32) | (sb << 2u32) | (sc << 1u32) | (sd << 0u32),
    ;
    assert((((w >> 1u32) & 1) | (((w >> 5u32) & 1) << 1u32) | (((w >> 9u32) & 1) << 2u32) | (((w >> 13u32) & 1) << 3u32) | (((w >> 17u32) & 1) << 4u32) | (((w >> 21u32) & 1) << 5u32) | (((w >> 25u32) & 1) << 6u32) | (((w >> 29u32) & 1) << 7u32)) == c) by (bit_vector)
        requires
            c < 256,
            sa == (a & 1) | ((a & 2) << 3u32) | ((a & 4) << 6u32) | ((a & 8) << 9u32) | ((a & 16) << 12u32) | ((a & 32) << 15u32) | ((a & 64) << 18u32) | ((a & 128) << 21u32),
            sb == (b & 1) | ((b & 2) << 3u32) | ((b & 4) << 6u32) | ((b & 8) << 9u32) | ((b & 16) << 12u32) | ((b & 32) << 15u32) | ((b & 64) << 18u32) | ((b & 128) << 21u32),
            sc == (c & 1) | ((c & 2) << 3u32) | ((c & 4) << 6u32) | ((c & 8) << 9u32) | ((c & 16) << 12u32) | ((c & 32) << 15u32) | ((c & 64) << 18u32) | ((c & 128) << 21u32),
            sd == (d & 1) | ((d & 2) << 3u32) | ((d & 4) << 6u32) | ((d & 8) << 9u32) | ((d & 16) << 12u32) | ((d & 32) << 15u32) | ((d & 64) << 18u32) | ((d & 128) << 21u32),
            w == (sa << 3u32) | (sb << 2u32) | (sc << 1u32) | (sd << 0u32),
    ;
    assert((((w >> 0u32) & 1) | (((w >> 4u32) & 1) << 1u32) | (((w >> 8u32) & 1) << 2u32) | (((w >> 12u32) & 1) << 3u32) | (((w >> 16u32) & 1) << 4u32) | (((w >> 20u32) & 1) << 5u32) | (((w >> 24u32) & 1) << 6u32) | (((w >> 28u32) & 1) << 7u32)) == d) by (bit_vector)
        requires
            d < 256,
            sa == (a & 1) | ((a & 2) << 3u32) | ((a & 4) << 6u32) | ((a & 8) << 9u32) | ((a & 16) << 12u32) | ((a & 32) << 15u32) | ((a & 64) << 18u32) | ((a & 128) << 21u32),
            sb == (b & 1) | ((b & 2) << 3u32) | ((b & 4) << 6u32) | ((b & 8) << 9u32) | ((b & 16) << 12u32) | ((b & 32) << 15u32) | ((b & 64) << 18u32) | ((b & 128) << 21u32),
            sc == (c & 1) | ((c & 2) << 3u32) | ((c & 4) << 6u32) | ((c & 8) << 9u32) | ((c & 16) << 12u32) | ((c & 32) << 15u32) | ((c & 64) << 18u32) | ((c & 128) << 21u32),
            sd == (d & 1) | ((d & 2) << 3u32) | ((d & 4) << 6u32) | ((d & 8) << 9u32) | ((d & 16) << 12u32) | ((d & 32) << 15u32) | ((d & 64) << 18u32) | ((d & 128) << 21u32),
            w == (sa << 3u32) | (sb << 2u32) | (sc << 1u32) | (sd << 0u32),
    ;
}

} // verus!
