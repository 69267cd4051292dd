use vstd::prelude::*;
use vstd::slice::slice_subrange;

use super::interleaved_pixels::{interleave, lanes_of, InterleavedPixels};
use crate::pixelstream::PixelStreamRef;

verus! {

/// The words a transmission of these lanes consists of: the interleaved words
/// followed by one all-zero word.
pub open spec fn transmission_words(lanes: Seq<Seq<u8>>) -> Seq<u32> {
    interleave(lanes).push(0)
}

/// A buffer that preprocesses pixel data for FlexIO DMA usage.
///
/// # Generics:
///
/// * `N` - the number of pixels the buffer can hold
/// * `L` - the number of LED strips
/// * `P` - the number of bytes per pixel
pub struct PreprocessedPixels<const N: usize, const L: usize, const P: usize> {
    /// How many words of `data` hold prepared data.
    len: u32,
    /// `N * P` data words, followed by `P` words of zero termination.
    ///
    /// Note that this always holds data for four LED strips, even when less are used.
    /// The unused data is filled with zeros. That's just how the driver works.
    data: Vec<u32>,
}

impl<const N: usize, const L: usize, const P: usize> PreprocessedPixels<N, L, P> {
    /// The number of data words: `P` for each of the `N` pixels.
    pub open spec fn data_capacity() -> nat {
        (N * P) as nat
    }

    /// The buffer holds its capacity plus the zero termination, the prepared
    /// length is within the capacity and the termination is zero.
    spec fn shape_ok(&self) -> bool {
        &&& N * P + P <= u32::MAX
        &&& self.data@.len() == Self::data_capacity() + P
        &&& self.len <= Self::data_capacity()
        &&& forall|k: int| Self::data_capacity() <= k < self.data@.len() ==> self.data@[k] == 0
    }

    /// The buffer is well formed: besides its shape, every word from the
    /// prepared length on is zero.
    pub closed spec fn wf(&self) -> bool {
        &&& self.shape_ok()
        &&& forall|k: int| self.len <= k < self.data@.len() ==> self.data@[k] == 0
    }

    /// All words of the buffer, zero termination included.
    pub closed spec fn words(&self) -> Seq<u32> {
        self.data@
    }

    /// How many words hold prepared data.
    pub closed spec fn prepared_len(&self) -> nat {
        self.len as nat
    }

    /// The number of words that preparing these lanes stores: the whole
    /// transmission, or as much of it as fits.
    pub open spec fn stored_len(lanes: Seq<Seq<u8>>) -> nat {
        let w = transmission_words(lanes);
        if w.len() < Self::data_capacity() {
            w.len()
        } else {
            Self::data_capacity()
        }
    }

    /// The buffer holds the transmission of `lanes` from its start, as far as
    /// it fits, and zeros everywhere after it.
    pub open spec fn prepared_from(&self, lanes: Seq<Seq<u8>>) -> bool {
        let w = transmission_words(lanes);
        let n = Self::stored_len(lanes);
        &&& self.prepared_len() == n
        &&& self.words().len() == Self::data_capacity() + P
        &&& forall|k: int|
            0 <= k < self.words().len() ==> self.words()[k] == if k < n {
                w[k]
            } else {
                0
            }
    }

    /// Creates a new PreprocessedPixels buffer.
    pub fn new() -> (r: Self)
        requires
            N * P + P <= u32::MAX,
        ensures
            r.wf(),
            r.prepared_len() == 0,
            r.words() == Seq::new((N * P + P) as nat, |k: int| 0u32),
    {
        let total = N * P + P;
        let mut data: Vec<u32> = Vec::new();
        while data.len() < total
            invariant
                total == N * P + P,
                data.len() <= total,
                forall|k: int| 0 <= k < data@.len() ==> data@[k] == 0,
            decreases total - data.len(),
        {
            data.push(0);
        }
        let r = Self { len: 0, data };
        assert(r.words() =~= Seq::new((N * P + P) as nat, |k: int| 0u32));
        r
    }

    /// The amount of pixels that fit into this buffer
    pub fn capacity(&self) -> (r: usize)
        ensures
            r == N,
    {
        N
    }

    /// The words that DMA transmits: the prepared data followed by `P` words
    /// of zeros.
    pub fn get_dma_data(&self) -> (r: &[u32])
        requires
            self.wf(),
        ensures
            r@ == self.words().take(self.prepared_len() + P),
            r@.len() == self.prepared_len() + P,
            self.prepared_len() <= Self::data_capacity(),
            self.words().len() == Self::data_capacity() + P,
            forall|k: int| self.prepared_len() <= k < r@.len() ==> r@[k] == 0,
    {
        let cap = N * P;
        let used = if cap < self.len as usize {
            cap
        } else {
            self.len as usize
        };
        slice_subrange(self.data.as_slice(), 0, used + P)
    }

    /// Prepares a set of pixels for transmission to the LED strip.
    ///
    /// The lanes are interleaved into words; with the trailing zero word they
    /// fill the buffer from the start, as far as it reaches. Every word after
    /// them is zero.
    pub fn prepare_pixels<S: PixelStreamRef>(&mut self, pixels: Vec<S>)
        requires
            old(self).wf(),
            pixels.len() == L,
        ensures
            final(self).wf(),
            final(self).prepared_from(lanes_of(pixels@)),
    {
        let ghost w = transmission_words(lanes_of(pixels@));
        let cap = N * P;
        let mut words = InterleavedPixels::new(pixels);
        let mut len: usize = 0;
        while len < cap
            invariant
                self.shape_ok(),
                cap == Self::data_capacity(),
                len <= cap,
                words.words() == w.skip(len as int),
                len <= w.len(),
                forall|k: int| 0 <= k < len ==> self.data@[k] == w[k],
            ensures
                self.shape_ok(),
                len <= cap,
                len <= w.len(),
                len == cap || len == w.len(),
                forall|k: int| 0 <= k < len ==> self.data@[k] == w[k],
            decreases cap - len,
        {
            match words.next() {
                Some(word) => {
                    self.data[len] = word;
                    len += 1;
                },
                None => {
                    break ;
                },
            }
        }
        let mut i: usize = len;
        while i < cap
            invariant
                self.shape_ok(),
                cap == Self::data_capacity(),
                len <= i <= cap,
                len <= w.len(),
                len == cap || len == w.len(),
                forall|k: int| 0 <= k < len ==> self.data@[k] == w[k],
                forall|k: int| len <= k < i ==> self.data@[k] == 0,
            decreases cap - i,
        {
            self.data[i] = 0;
            i += 1;
        }
        self.len = len as u32;
    }
}

/// Preparing the same lanes twice gives byte-identical buffers, whatever the
/// buffers held before.
pub proof fn lemma_prepare_idempotent<const N: usize, const L: usize, const P: usize>(
    a: PreprocessedPixels<N, L, P>,
    b: PreprocessedPixels<N, L, P>,
    lanes: Seq<Seq<u8>>,
)
    requires
        a.prepared_from(lanes),
        b.prepared_from(lanes),
    ensures
        a.words() == b.words(),
        a.prepared_len() == b.prepared_len(),
{
    assert(a.words() =~= b.words());
}

/// When the transmission is shorter than the buffer, all of it is stored,
/// every word from the prepared length on is zero, and DMA sees the prepared
/// words plus `P` words of zeros.
pub proof fn lemma_prepare_zero_fill<const N: usize, const L: usize, const P: usize>(
    buf: PreprocessedPixels<N, L, P>,
    lanes: Seq<Seq<u8>>,
)
    requires
        buf.prepared_from(lanes),
        transmission_words(lanes).len() < PreprocessedPixels::<N, L, P>::data_capacity(),
    ensures
        buf.prepared_len() == transmission_words(lanes).len(),
        buf.words().take(buf.prepared_len() as int) == transmission_words(lanes),
        forall|k: int| buf.prepared_len() <= k < buf.words().len() ==> buf.words()[k] == 0,
        buf.prepared_len() + P <= buf.words().len(),
{
    assert(buf.words().take(buf.prepared_len() as int) =~= transmission_words(lanes));
}

} // verus!
