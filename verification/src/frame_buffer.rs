//! The grid of pixels that a rendering fills.
//!
//! A channel is stored as the bit pattern of a single-precision number; the
//! library moves such words about and never reads them.

use vstd::prelude::*;

verus! {

/// One pixel: three colour channels and a depth.
#[derive(Clone, Copy, Debug, PartialEq, Eq, Structural)]
pub struct Pixel {
    pub red: u32,
    pub green: u32,
    pub blue: u32,
    pub depth: u32,
}

impl Pixel {
    /// A black pixel at depth zero.
    pub fn new() -> (p: Pixel)
        ensures
            p == (Pixel { red: 0, green: 0, blue: 0, depth: 0 }),
    {
        Pixel { red: 0, green: 0, blue: 0, depth: 0 }
    }

    /// A pixel of the given colour and depth.
    pub fn from_color(red: u32, green: u32, blue: u32, d: u32) -> (p: Pixel)
        ensures
            p == (Pixel { red, green, blue, depth: d }),
    {
        Pixel { red, green, blue, depth: d }
    }
}

/// A frame of `width` by `height` pixels, row after row from the top.
#[derive(Debug, PartialEq, Eq)]
pub struct FrameBuffer {
    pub width: usize,
    pub height: usize,
    pub frame_buffer: Vec<Pixel>,
}

/// A coordinate brought into a row or column of `size` places.
pub open spec fn clamped(at: usize, size: usize) -> int {
    if at < size {
        at as int
    } else {
        size - 1
    }
}

impl FrameBuffer {
    /// Whether the frame holds one pixel for every place.
    pub open spec fn wf(self) -> bool {
        self.frame_buffer@.len() == self.width * self.height
    }

    /// Position in the frame of the pixel in column `x` of row `y`, each
    /// brought into the frame.
    pub open spec fn slot(self, x: usize, y: usize) -> int {
        clamped(y, self.height) * self.width + clamped(x, self.width)
    }

    /// A black frame.
    pub fn new(width: usize, height: usize) -> (fb: FrameBuffer)
        requires
            width * height <= usize::MAX,
        ensures
            fb.wf(),
            fb.width == width,
            fb.height == height,
            forall|i: int|
                0 <= i < fb.frame_buffer@.len() ==> #[trigger] fb.frame_buffer@[i] == (Pixel {
                    red: 0,
                    green: 0,
                    blue: 0,
                    depth: 0,
                }),
    {
        let count: usize = width * height;
        let mut frame_buffer: Vec<Pixel> = Vec::new();
        let mut i: usize = 0;
        while i < count
            invariant
                i <= count,
                frame_buffer@.len() == i,
                forall|k: int|
                    0 <= k < i ==> #[trigger] frame_buffer@[k] == (Pixel {
                        red: 0,
                        green: 0,
                        blue: 0,
                        depth: 0,
                    }),
            decreases count - i,
        {
            frame_buffer.push(Pixel::new());
            i += 1;
        }
        FrameBuffer { width, height, frame_buffer }
    }

    /// Computes the position of a pixel in the frame.
    pub fn locate(&self, x: usize, y: usize) -> (at: usize)
        requires
            self.wf(),
            self.width >= 1,
            self.height >= 1,
        ensures
            at == self.slot(x, y),
            at < self.frame_buffer@.len(),
    {
        let x: usize = if x < self.width {
            x
        } else {
            self.width - 1
        };
        let y: usize = if y < self.height {
            y
        } else {
            self.height - 1
        };
        let count: usize = self.frame_buffer.len();
        assert(0 <= y * self.width && y * self.width + x < self.width * self.height)
            by (nonlinear_arith)
            requires
                x < self.width,
                y < self.height,
        ;
        y * self.width + x
    }

    /// Sets the colour of the pixel in column `x` of row `y`. A coordinate
    /// outside the frame is brought to its last column or row.
    pub fn plot_pixel(&mut self, x: usize, y: usize, red: u32, green: u32, blue: u32)
        requires
            old(self).wf(),
            old(self).width >= 1,
            old(self).height >= 1,
        ensures
            final(self).wf(),
            final(self).width == old(self).width,
            final(self).height == old(self).height,
            final(self).frame_buffer@ == old(self).frame_buffer@.update(
                old(self).slot(x, y),
                Pixel { red, green, blue, depth: old(self).frame_buffer@[old(self).slot(x, y)].depth },
            ),
    {
        let at = self.locate(x, y);
        let depth = self.frame_buffer[at].depth;
        self.frame_buffer.set(at, Pixel { red, green, blue, depth });
    }

    /// Sets the depth of the pixel in column `x` of row `y`. A coordinate
    /// outside the frame is brought to its last column or row.
    pub fn plot_depth(&mut self, x: usize, y: usize, depth: u32)
        requires
            old(self).wf(),
            old(self).width >= 1,
            old(self).height >= 1,
        ensures
            final(self).wf(),
            final(self).width == old(self).width,
            final(self).height == old(self).height,
            final(self).frame_buffer@ == old(self).frame_buffer@.update(
                old(self).slot(x, y),
                Pixel { depth, ..old(self).frame_buffer@[old(self).slot(x, y)] },
            ),
    {
        let at = self.locate(x, y);
        let p: Pixel = self.frame_buffer[at];
        self.frame_buffer.set(at, Pixel { red: p.red, green: p.green, blue: p.blue, depth });
    }

    /// The pixels, row after row.
    pub fn pixels(&self) -> (list: &Vec<Pixel>)
        ensures
            list == self.frame_buffer,
    {
        &self.frame_buffer
    }
}

} // verus!
