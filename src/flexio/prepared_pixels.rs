use vstd::prelude::*;

use crate::pixel::Pixel;
use crate::pixelstream::pixels_bytes;

verus! {

/// The little-endian value of four bytes.
pub open spec fn le_word(b0: u8, b1: u8, b2: u8, b3: u8) -> u32 {
    (b0 + 256 * b1 + 65536 * b2 + 16777216 * b3) as u32
}

/// The words of a byte buffer read four bytes at a time, little-endian, for
/// the first `n` words.
pub open spec fn le_words(bytes: Seq<u8>, n: nat) -> Seq<u32> {
    Seq::new(n, |i: int| le_word(bytes[4 * i], bytes[4 * i + 1], bytes[4 * i + 2], bytes[4 * i + 3]))
}

/// The number of words DMA reads for `len` bytes: at least one and at most
/// four bytes of zero padding after them.
pub open spec fn dma_word_count(len: nat) -> nat {
    (len + 4) / 4
}

/// A buffer that prepares pixel data for FlexIO usage.
///
/// `N` is the number of pixels it holds, `P` the number of bytes per pixel.
pub struct PreparedPixels<const N: usize, const P: usize> {
    len: u32,
    /// `N * P` data bytes followed by four bytes of zero termination.
    data: Vec<u8>,
}

impl<const N: usize, const P: usize> PreparedPixels<N, P> {
    #[verifier::type_invariant]
    spec fn inv(self) -> bool {
        &&& N * P + 4 <= u32::MAX
        &&& N <= u32::MAX
        &&& self.len <= N
        &&& self.data@.len() == N * P + 4
        &&& self.len * P <= N * P
        &&& forall|k: int| self.len * P <= k < self.data@.len() ==> self.data@[k] == 0
    }

    /// The stored bytes, zero termination included.
    pub closed spec fn bytes(&self) -> Seq<u8> {
        self.data@
    }

    /// How many pixels are stored.
    pub closed spec fn pixel_len(&self) -> nat {
        self.len as nat
    }

    /// Creates a new PreparedPixels buffer.
    pub fn new() -> (r: Self)
        requires
            N * P + 4 <= u32::MAX,
            N <= u32::MAX,
        ensures
            r.pixel_len() == 0,
            r.bytes() == Seq::new((N * P + 4) as nat, |k: int| 0u8),
    {
        let total = N * P + 4;
        let mut data: Vec<u8> = Vec::new();
        while data.len() < total
            invariant
                total == N * P + 4,
                data.len() <= total,
                forall|k: int| 0 <= k < data@.len() ==> data@[k] == 0,
            decreases total - data.len(),
        {
            data.push(0);
        }
        assert(data@ =~= Seq::new((N * P + 4) as nat, |k: int| 0u8));
        Self { len: 0, data }
    }

    /// The amount of pixels that fit into this buffer
    pub fn capacity(&self) -> (r: usize)
        ensures
            r == N,
    {
        N
    }

    /// Prepares a set of pixels for transmission to the LED strip.
    ///
    /// Stores the wire bytes of the first `N` pixels one after the other and
    /// zeros after them.
    pub fn prepare_pixels<T: Pixel>(&mut self, pixels: &Vec<T>)
        requires
            forall|i: int| 0 <= i < pixels.len() ==> (#[trigger] pixels@[i].ws2812_bytes()).len() == P,
        ensures
            final(self).pixel_len() == stored_pixels(pixels.len() as nat, N as nat),
            final(self).bytes() == pixels_bytes(pixels@.take(stored_pixels(pixels.len() as nat, N as nat) as int))
                + Seq::new(
                (N * P + 4 - stored_pixels(pixels.len() as nat, N as nat) * P) as nat,
                |k: int| 0u8,
            ),
    {
        proof {
            use_type_invariant(&*self);
        }
        let total = N * P + 4;
        let count = if pixels.len() < N {
            pixels.len()
        } else {
            N
        };
        let mut data: Vec<u8> = Vec::new();
        let mut len: usize = 0;
        while len < count
            invariant
                total == N * P + 4,
                N * P + 4 <= u32::MAX,
                N <= u32::MAX,
                count <= N,
                count <= pixels.len(),
                len <= count,
                data@.len() == len * P,
                forall|i: int| 0 <= i < pixels.len() ==> (#[trigger] pixels@[i].ws2812_bytes()).len() == P,
                data@ == pixels_bytes(pixels@.take(len as int)),
            decreases count - len,
        {
            let mut bytes = pixels[len].get_ws2812_bytes();
            let ghost wire = pixels@[len as int].ws2812_bytes();
            let ghost before = data@;
            proof {
                assert(len * P <= N * P) by (nonlinear_arith)
                    requires
                        len <= N,
                ;
            }
            let mut j: usize = 0;
            while j < P
                invariant
                    len * P <= N * P,
                    N * P + 4 <= u32::MAX,
                    wire.len() == P,
                    j <= P,
                    bytes.remaining() == wire.skip(j as int),
                    data@ == before + wire.take(j as int),
                decreases P - j,
            {
                match bytes.next() {
                    Some(b) => {
                        data.push(b);
                    },
                    None => {
                        data.push(0);
                    },
                }
                assert(bytes.remaining() =~= wire.skip(j + 1));
                assert(data@ =~= before + wire.take(j + 1));
                j += 1;
            }
            proof {
                lemma_pixels_bytes_push(pixels@.take(len as int), pixels@[len as int]);
                assert(pixels@.take(len + 1) =~= pixels@.take(len as int).push(pixels@[len as int]));
                assert(wire.take(P as int) =~= wire);
                assert((len + 1) * P == len * P + P) by (nonlinear_arith);
            }
            len += 1;
        }
        let ghost prefix = data@;
        proof {
            assert(count * P <= N * P) by (nonlinear_arith)
                requires
                    count <= N,
            ;
        }
        while data.len() < total
            invariant
                total == N * P + 4,
                count * P <= N * P,
                prefix.len() == count * P,
                prefix.len() <= data@.len() <= total,
                data@.subrange(0, prefix.len() as int) == prefix,
                forall|k: int| prefix.len() <= k < data@.len() ==> data@[k] == 0,
            decreases total - data.len(),
        {
            data.push(0);
            assert(data@.subrange(0, prefix.len() as int) =~= prefix);
        }
        assert(data@ =~= prefix + Seq::new((N * P + 4 - count * P) as nat, |k: int| 0u8));
        *self = Self { len: count as u32, data };
    }
}

/// How many of `n` pixels a buffer of `capacity` pixels stores.
pub open spec fn stored_pixels(n: nat, capacity: nat) -> nat {
    if n < capacity {
        n
    } else {
        capacity
    }
}

proof fn lemma_pixels_bytes_push<T: Pixel>(s: Seq<T>, x: T)
    ensures
        pixels_bytes(s.push(x)) == pixels_bytes(s) + x.ws2812_bytes(),
    decreases s.len(),
{
    if s.len() == 0 {
        assert(s.push(x).drop_first() =~= Seq::<T>::empty());
        assert(pixels_bytes(s.push(x).drop_first()) == Seq::<u8>::empty());
        assert(pixels_bytes(s) == Seq::<u8>::empty());
        assert(pixels_bytes(s.push(x)) =~= x.ws2812_bytes());
    } else {
        lemma_pixels_bytes_push(s.drop_first(), x);
        assert(s.push(x).drop_first() =~= s.drop_first().push(x));
        assert(pixels_bytes(s.push(x)) =~= pixels_bytes(s) + x.ws2812_bytes());
    }
}

/// A reference to a PreparedPixels buffer.
///
/// Used as an abstraction to pass prepared pixels
/// of different sizes to the FlexIO driver.
pub trait PreparedPixelsRef {
    /// The words DMA transmits.
    spec fn dma_buffer(&self) -> Seq<u32>;

    /// Retrieves the DMA data buffer.
    fn get_dma_buffer(&self) -> (r: Vec<u32>)
        ensures
            r@ == self.dma_buffer(),
    ;
}

impl<const N: usize, const P: usize> PreparedPixelsRef for PreparedPixels<N, P> {
    /// The stored bytes as little-endian words, ending with at least one and
    /// at most four bytes of zeros.
    open spec fn dma_buffer(&self) -> Seq<u32> {
        le_words(self.bytes(), dma_word_count(self.pixel_len() * (P as nat)))
    }

    /// Every byte after the stored pixels is zero, so the last word carries
    /// between one and four bytes of zero padding.
    fn get_dma_buffer(&self) -> (r: Vec<u32>)
        ensures
            self.bytes().len() == N * P + 4,
            self.pixel_len() <= N,
            forall|k: int| self.pixel_len() * P <= k < self.bytes().len() ==> self.bytes()[k] == 0,
            self.pixel_len() * P < 4 * r@.len() <= self.pixel_len() * P + 4,
    {
        proof {
            use_type_invariant(self);
        }
        let len = (self.len as usize) * P;
        let len_32 = (len + 4) / 4;
        let mut r: Vec<u32> = Vec::new();
        let mut i: usize = 0;
        while i < len_32
            invariant
                len == self.pixel_len() * (P as nat),
                len <= N * P,
                self.data@.len() == N * P + 4,
                N * P + 4 <= u32::MAX,
                len_32 == dma_word_count(len as nat),
                i <= len_32,
                r@ == le_words(self.data@, i as nat),
            decreases len_32 - i,
        {
            let b0 = self.data[4 * i] as u32;
            let b1 = self.data[4 * i + 1] as u32;
            let b2 = self.data[4 * i + 2] as u32;
            let b3 = self.data[4 * i + 3] as u32;
            r.push(b0 + b1 * 256 + b2 * 65536 + b3 * 16777216);
            assert(r@ =~= le_words(self.data@, (i + 1) as nat));
            i += 1;
        }
        r
    }
}

} // verus!
