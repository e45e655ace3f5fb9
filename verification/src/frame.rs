//! A fixed-capacity pixel store for one full screen frame.
//!
//! The buffer holds `width * height` packed pixels in row-major order and
//! never resizes: the geometry is fixed at construction.  A pixel is
//! addressed by `(x, y)` through the linear offset `y * width + x`.  The
//! bounds policy is rejection: a write outside the geometry is refused and
//! leaves the buffer untouched, a read outside it returns `None` — an
//! out-of-range coordinate is never aliased onto another pixel.

use vstd::prelude::*;

verus! {

/// The largest pixel count a frame buffer may hold.  Keeping the product of
/// the dimensions under this bound leaves room to double it for the byte
/// stream on any machine word size.
pub const MAX_PIXELS: usize = 0x0100_0000;

/// A fixed-capacity frame: geometry plus the row-major pixel store.
pub struct FrameBuffer {
    pub width: usize,
    pub height: usize,
    pub pixels: Vec<u16>,
}

impl FrameBuffer {
    /// Well-formedness: both dimensions are positive, the pixel count is
    /// bounded, and the store holds exactly one pixel per coordinate.
    pub open spec fn wf(self) -> bool {
        &&& 1 <= self.width
        &&& 1 <= self.height
        &&& self.width * self.height <= MAX_PIXELS
        &&& self.pixels@.len() == self.width * self.height
    }

    /// Whether `(x, y)` addresses a pixel of this frame.
    pub open spec fn in_bounds(self, x: usize, y: usize) -> bool {
        x < self.width && y < self.height
    }

    /// The linear offset of `(x, y)` in the row-major store.
    pub open spec fn offset_of(self, x: usize, y: usize) -> int {
        y as int * self.width as int + x as int
    }

    /// The pixel at `(x, y)`, or `None` outside the geometry.
    pub open spec fn read(self, x: usize, y: usize) -> Option<u16> {
        if self.in_bounds(x, y) {
            Some(self.pixels@[self.offset_of(x, y)])
        } else {
            None
        }
    }

    /// Builds a frame of the given geometry with every pixel set to `fill`
    /// (the producer's pre-submit sentinel on the very first frame).
    pub fn new(width: usize, height: usize, fill: u16) -> (fb: FrameBuffer)
        requires
            1 <= width,
            1 <= height,
            width * height <= MAX_PIXELS,
        ensures
            fb.wf(),
            fb.width == width,
            fb.height == height,
            forall|x: usize, y: usize|
                fb.in_bounds(x, y) ==> fb.read(x, y) == Some(fill),
    {
        let n: usize = width * height;
        let mut pixels: Vec<u16> = Vec::new();
        let mut i: usize = 0;
        while i < n
            invariant
                i <= n,
                pixels@.len() == i,
                forall|j: int| 0 <= j < i ==> pixels@[j] == fill,
            decreases n - i,
        {
            pixels.push(fill);
            i = i + 1;
        }
        let fb = FrameBuffer { width, height, pixels };
        proof {
            assert forall|x: usize, y: usize| fb.in_bounds(x, y) implies fb.read(x, y)
                == Some(fill) by {
                lemma_offset_in_range(width as int, height as int, x as int, y as int);
            }
        }
        fb
    }

    /// Writes the pixel at `(x, y)`.  Returns whether the write was applied:
    /// inside the geometry exactly that pixel changes, outside it the write
    /// is rejected and the frame is unchanged.
    pub fn set(&mut self, x: usize, y: usize, p: u16) -> (applied: bool)
        requires
            old(self).wf(),
        ensures
            final(self).wf(),
            final(self).width == old(self).width,
            final(self).height == old(self).height,
            applied == old(self).in_bounds(x, y),
            applied ==> final(self).pixels@ == old(self).pixels@.update(
                old(self).offset_of(x, y),
                p,
            ),
            !applied ==> *final(self) == *old(self),
    {
        if x < self.width && y < self.height {
            proof {
                lemma_offset_in_range(
                    self.width as int,
                    self.height as int,
                    x as int,
                    y as int,
                );
            }
            let i: usize = y * self.width + x;
            self.pixels.set(i, p);
            true
        } else {
            false
        }
    }

    /// Reads the pixel at `(x, y)`: `Some` exactly inside the geometry,
    /// `None` outside it.
    pub fn get(&self, x: usize, y: usize) -> (r: Option<u16>)
        requires
            self.wf(),
        ensures
            r == self.read(x, y),
    {
        if x < self.width && y < self.height {
            proof {
                lemma_offset_in_range(
                    self.width as int,
                    self.height as int,
                    x as int,
                    y as int,
                );
            }
            let i: usize = y * self.width + x;
            Some(self.pixels[i])
        } else {
            None
        }
    }

    /// The number of pixels the frame holds.
    pub fn len(&self) -> (n: usize)
        ensures
            n == self.pixels@.len(),
    {
        self.pixels.len()
    }

    /// Whether `bytes` is this frame's wire stream: twice as many bytes as
    /// pixels, each pixel in row-major order as its big-endian byte pair.
    pub open spec fn encodes(self, bytes: Seq<u8>) -> bool {
        &&& bytes.len() == 2 * self.pixels@.len()
        &&& forall|i: int|
            0 <= i < self.pixels@.len() ==> bytes[2 * i] == crate::color::spec_hi(
                #[trigger] self.pixels@[i],
            ) && bytes[2 * i + 1] == crate::color::spec_lo(self.pixels@[i])
    }

    /// Serializes the frame for the transport: the row-major pixel sequence
    /// as a byte stream, big-endian per pixel.
    pub fn to_bytes(&self) -> (bytes: Vec<u8>)
        ensures
            self.encodes(bytes@),
    {
        let n: usize = self.pixels.len();
        let mut bytes: Vec<u8> = Vec::new();
        let mut i: usize = 0;
        while i < n
            invariant
                i <= n,
                n == self.pixels@.len(),
                bytes@.len() == 2 * i,
                forall|j: int|
                    0 <= j < i ==> bytes@[2 * j] == crate::color::spec_hi(self.pixels@[j])
                        && bytes@[2 * j + 1] == crate::color::spec_lo(self.pixels@[j]),
            decreases n - i,
        {
            let (hi, lo) = crate::color::split(self.pixels[i]);
            bytes.push(hi);
            bytes.push(lo);
            i = i + 1;
        }
        bytes
    }
}

/// A row-major offset computed from in-bounds coordinates addresses a pixel
/// of the store: `y * w + x < w * h`.
pub proof fn lemma_offset_in_range(w: int, h: int, x: int, y: int)
    by (nonlinear_arith)
    requires
        0 < w,
        0 < h,
        0 <= x < w,
        0 <= y < h,
    ensures
        0 <= y * w + x < w * h,
{
}

/// Distinct in-bounds coordinates map to distinct row-major offsets: no two
/// pixels of the frame alias the same slot of the store.
pub proof fn lemma_offset_injective(w: int, x1: int, y1: int, x2: int, y2: int)
    by (nonlinear_arith)
    requires
        0 < w,
        0 <= x1 < w,
        0 <= x2 < w,
        0 <= y1,
        0 <= y2,
        y1 * w + x1 == y2 * w + x2,
    ensures
        x1 == x2,
        y1 == y2,
{
}

/// Writing a pixel inside the geometry and then reading the frame back
/// yields the written pixel at the written coordinate and leaves every other
/// pixel as it was.  `after` is the frame a successful `set` produces.
pub proof fn lemma_write_then_read(
    before: FrameBuffer,
    after: FrameBuffer,
    x: usize,
    y: usize,
    p: u16,
)
    requires
        before.wf(),
        before.in_bounds(x, y),
        after.width == before.width,
        after.height == before.height,
        after.pixels@ == before.pixels@.update(before.offset_of(x, y), p),
    ensures
        after.read(x, y) == Some(p),
        forall|x2: usize, y2: usize|
            before.in_bounds(x2, y2) && !(x2 == x && y2 == y) ==> after.read(x2, y2)
                == before.read(x2, y2),
{
    lemma_offset_in_range(
        before.width as int,
        before.height as int,
        x as int,
        y as int,
    );
    assert forall|x2: usize, y2: usize|
        before.in_bounds(x2, y2) && !(x2 == x && y2 == y) implies after.read(x2, y2)
        == before.read(x2, y2) by {
        lemma_offset_in_range(
            before.width as int,
            before.height as int,
            x2 as int,
            y2 as int,
        );
        if before.offset_of(x2, y2) == before.offset_of(x, y) {
            lemma_offset_injective(
                before.width as int,
                x2 as int,
                y2 as int,
                x as int,
                y as int,
            );
        }
    }
}

} // verus!
