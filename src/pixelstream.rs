use vstd::prelude::*;

use crate::pixel::{Pixel, PixelBytes};

verus! {

/// A source of wire bytes for one lane.
pub trait PixelStreamRef {
    /// The bytes this stream still yields, in order.
    spec fn remaining_bytes(&self) -> Seq<u8>;

    /// Yields the next byte; `None` once the stream is exhausted.
    fn next(&mut self) -> (r: Option<u8>)
        ensures
            old(self).remaining_bytes().len() == 0 ==> r.is_none()
                && final(self).remaining_bytes() == old(self).remaining_bytes(),
            old(self).remaining_bytes().len() > 0 ==> r == Some(old(self).remaining_bytes()[0])
                && final(self).remaining_bytes() == old(self).remaining_bytes().drop_first(),
    ;
}

/// The wire bytes of a sequence of pixels, one pixel after the other.
pub open spec fn pixels_bytes<P: Pixel>(pixels: Seq<P>) -> Seq<u8>
    decreases pixels.len(),
{
    if pixels.len() == 0 {
        Seq::empty()
    } else {
        pixels[0].ws2812_bytes() + pixels_bytes(pixels.drop_first())
    }
}

/// Takes the next byte of the current pixel.
fn next_byte(bytes_iter: &mut Option<PixelBytes>) -> (r: Option<u8>)
    requires
        old(bytes_iter).is_some(),
    ensures
        final(bytes_iter).is_some(),
        ({
            let before = old(bytes_iter).unwrap().remaining();
            let after = final(bytes_iter).unwrap().remaining();
            &&& before.len() == 0 ==> r.is_none() && after == before
            &&& before.len() > 0 ==> r == Some(before[0]) && after == before.drop_first()
        }),
    no_unwind
{
    match bytes_iter {
        Some(it) => it.next(),
        None => None,
    }
}

/// The wire bytes of a sequence of pixels, produced lazily.
pub struct PixelStream<P: Pixel> {
    pixel_stream: Vec<P>,
    pos: usize,
    bytes_iter: Option<PixelBytes>,
    finished: bool,
}

impl<P: Pixel> PixelStream<P> {
    #[verifier::type_invariant]
    spec fn inv(self) -> bool {
        &&& self.pos <= self.pixel_stream.len()
        &&& self.finished ==> self.bytes_iter.is_none() && self.pos == self.pixel_stream.len()
    }

    /// A stream over the bytes of `pixel_stream`.
    pub fn new(pixel_stream: Vec<P>) -> (r: Self)
        ensures
            r.remaining_bytes() == pixels_bytes(pixel_stream@),
    {
        let r = Self { pixel_stream, pos: 0, bytes_iter: None, finished: false };
        assert(r.pixel_stream@.subrange(0, r.pixel_stream@.len() as int) =~= r.pixel_stream@);
        r
    }

    spec fn measure(&self) -> int {
        if self.finished {
            0
        } else {
            3 * (self.pixel_stream.len() - self.pos) + if self.bytes_iter.is_some() {
                2int
            } else {
                1int
            }
        }
    }
}

impl<P: Pixel> PixelStreamRef for PixelStream<P> {
    closed spec fn remaining_bytes(&self) -> Seq<u8> {
        if self.finished {
            Seq::empty()
        } else {
            let current = match self.bytes_iter {
                Some(b) => b.remaining(),
                None => Seq::empty(),
            };
            current + pixels_bytes(self.pixel_stream@.subrange(self.pos as int, self.pixel_stream@.len() as int))
        }
    }

    fn next(&mut self) -> (r: Option<u8>) {
        let ghost start = old(self).remaining_bytes();
        loop
            invariant
                start == old(self).remaining_bytes(),
                self.remaining_bytes() == start,
            decreases self.measure(),
        {
            proof {
                use_type_invariant(&*self);
            }
            if self.finished {
                return None;
            }
            let ghost rest = self.pixel_stream@.subrange(self.pos as int, self.pixel_stream@.len() as int);
            if self.bytes_iter.is_none() {
                if self.pos < self.pixel_stream.len() {
                    let b = self.pixel_stream[self.pos].get_ws2812_bytes();
                    self.bytes_iter = Some(b);
                    self.pos += 1;
                    assert(rest.drop_first() =~= self.pixel_stream@.subrange(self.pos as int, self.pixel_stream@.len() as int));
                    assert(start =~= b.remaining() + pixels_bytes(rest.drop_first()));
                } else {
                    assert(rest.len() == 0);
                    self.finished = true;
                }
            } else {
                let ghost current = self.bytes_iter.unwrap().remaining();
                let r = next_byte(&mut self.bytes_iter);
                match r {
                    Some(byte) => {
                        assert(current.len() > 0);
                        assert(start =~= current + pixels_bytes(rest));
                        assert(self.remaining_bytes() =~= start.drop_first());
                        return Some(byte);
                    },
                    None => {
                        self.bytes_iter = None;
                        assert(self.remaining_bytes() =~= start);
                    },
                }
            }
        }
    }
}

/// Converts a collection of pixels into a pixel stream, usable by the
/// driver's `write` function.
pub trait IntoPixelStream<P: Pixel> {
    /// The pixels, in order.
    spec fn pixel_seq(&self) -> Seq<P>;

    /// Converts the current object into a pixel stream.
    fn into_pixel_stream(self) -> (r: PixelStream<P>)
        ensures
            r.remaining_bytes() == pixels_bytes(self.pixel_seq()),
    ;
}

impl<P: Pixel> IntoPixelStream<P> for Vec<P> {
    open spec fn pixel_seq(&self) -> Seq<P> {
        self@
    }

    fn into_pixel_stream(self) -> (r: PixelStream<P>) {
        PixelStream::new(self)
    }
}

} // verus!
