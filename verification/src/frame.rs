use vstd::prelude::*;

verus! {

/// Mathematical model of a frame: its pixel dimensions and the flat sequence
/// of channel bytes, three per pixel in red, green, blue order, rows first.
pub ghost struct FrameView {
    pub width: nat,
    pub height: nat,
    pub data: Seq<u8>,
}

impl FrameView {
    /// A frame is well formed when its buffer holds exactly three channel
    /// bytes for each of its `width * height` pixels.
    pub open spec fn wf(self) -> bool {
        self.data.len() == self.width * self.height * 3
    }

    /// The channel byte at flat index `i` (raster order, red, green, blue).
    pub open spec fn channel(self, i: int) -> u8 {
        self.data[i]
    }

    /// Two frames can be compared only when their dimensions agree.
    pub open spec fn same_dims(self, other: FrameView) -> bool {
        self.width == other.width && self.height == other.height
    }
}

/// One decoded RGB raster image: `width * height` pixels, three 8-bit
/// channels per pixel, stored as a flat byte vector in raster order.
pub struct Frame {
    pub width: usize,
    pub height: usize,
    pub data: Vec<u8>,
}

impl View for Frame {
    type V = FrameView;

    open spec fn view(&self) -> FrameView {
        FrameView {
            width: self.width as nat,
            height: self.height as nat,
            data: self.data@,
        }
    }
}

impl Frame {
    /// Build a frame from its dimensions and channel bytes; refuses a buffer
    /// whose length does not match the dimensions.
    pub fn new(width: usize, height: usize, data: Vec<u8>) -> (r: Option<Frame>)
        ensures
            r matches Some(f) ==> f@ == (FrameView {
                width: width as nat,
                height: height as nat,
                data: data@,
            }),
            r is Some <==> data@.len() == width * height * 3,
            r matches Some(f) ==> f@.wf(),
    {
        let byte_len = data.len();
        let channels = match width.checked_mul(height) {
            Some(pixels) => pixels.checked_mul(3),
            None => None,
        };
        match channels {
            Some(n) => {
                if n == byte_len {
                    Some(Frame { width, height, data })
                } else {
                    None
                }
            }
            None => {
                // width * height * 3 exceeds usize::MAX, which no buffer
                // length can reach
                proof {
                    assert(byte_len <= usize::MAX);
                    assert(width * height * 3 > usize::MAX);
                }
                None
            },
        }
    }
}

} // verus!
