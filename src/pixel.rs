use vstd::prelude::*;

verus! {

/// A pixel that can be rendered with this library.
pub trait Pixel {
    /// The bytes this pixel puts on the wire, in order.
    spec fn ws2812_bytes(&self) -> Seq<u8>;

    /// Return the raw bytes that should be sent to the LED strip.
    ///
    /// IMPORTANT: Be aware that LED strips are GRB encoded.
    fn get_ws2812_bytes(&self) -> (r: PixelBytes)
        ensures
            r.remaining() == self.ws2812_bytes(),
    ;
}

/// Raw RGB data; sent in GRB order.
impl Pixel for [u8; 3] {
    open spec fn ws2812_bytes(&self) -> Seq<u8> {
        seq![self@[1], self@[0], self@[2]]
    }

    fn get_ws2812_bytes(&self) -> (r: PixelBytes) {
        // Neopixel strips want GRB data
        PixelBytes::new([self[1], self[0], self[2], 0], 3)
    }
}

/// Raw RGBW data; sent as it is.
impl Pixel for [u8; 4] {
    open spec fn ws2812_bytes(&self) -> Seq<u8> {
        self@
    }

    fn get_ws2812_bytes(&self) -> (r: PixelBytes) {
        PixelBytes::new(*self, 4)
    }
}

/// A linear sRGB color with 8 bits per channel.
#[derive(Debug, Clone, Copy, PartialEq, Eq, Structural)]
pub struct LinSrgb8 {
    pub red: u8,
    pub green: u8,
    pub blue: u8,
}

impl LinSrgb8 {
    /// A color from its three channels.
    pub fn new(red: u8, green: u8, blue: u8) -> (r: Self)
        ensures
            r == (LinSrgb8 { red, green, blue }),
    {
        LinSrgb8 { red, green, blue }
    }
}

/// Sent in GRB order.
impl Pixel for LinSrgb8 {
    open spec fn ws2812_bytes(&self) -> Seq<u8> {
        seq![self.green, self.red, self.blue]
    }

    fn get_ws2812_bytes(&self) -> (r: PixelBytes) {
        PixelBytes::new([self.green, self.red, self.blue, 0], 3)
    }
}

/// The WS2812 bytes of one pixel, handed out one at a time.
pub struct PixelBytes {
    data: [u8; 4],
    len: usize,
    iter_pos: usize,
}

impl PixelBytes {
    #[verifier::type_invariant]
    spec fn inv(self) -> bool {
        self.iter_pos <= self.len <= 4
    }

    /// The bytes not handed out yet.
    pub closed spec fn remaining(&self) -> Seq<u8> {
        self.data@.subrange(self.iter_pos as int, self.len as int)
    }

    /// The first `len` bytes of `data`.
    pub fn new(data: [u8; 4], len: usize) -> (r: Self)
        requires
            len <= 4,
        ensures
            r.remaining() == data@.take(len as int),
    {
        Self { data, len, iter_pos: 0 }
    }

    /// Hands out the next byte, if there is one.
    pub fn next(&mut self) -> (r: Option<u8>)
        ensures
            old(self).remaining().len() == 0 ==> r.is_none() && final(self).remaining() == old(
                self,
            ).remaining(),
            old(self).remaining().len() > 0 ==> r == Some(old(self).remaining()[0])
                && final(self).remaining() == old(self).remaining().drop_first(),
    no_unwind
    {
        proof {
            use_type_invariant(&*self);
        }
        if self.iter_pos < self.len {
            let item = self.data[self.iter_pos];
            self.iter_pos += 1;
            assert(self.remaining() =~= old(self).remaining().drop_first());
            Some(item)
        } else {
            None
        }
    }
}

} // verus!
