//! Frame-content generators: each tick advances a small animation state and
//! redraws every pixel of the frame as a function of that state alone, so a
//! frame is fully reproducible from its index.
//!
//! Three patterns are supported: a moving filled rectangle on a black
//! background, a per-pixel coordinate gradient, and a solid animated fill.
//! All wraparound is explicit: the phase byte wraps at 256, and the
//! rectangle position wraps modulo `extent - rectangle size`, so the
//! rectangle never draws partially off-screen.

use crate::color::spec_pack;
use crate::frame::FrameBuffer;
use vstd::prelude::*;

verus! {

/// Which frame content the generator draws.
#[derive(Clone, Copy, PartialEq, Eq, Structural, Debug)]
pub enum PatternKind {
    /// A filled rectangle that moves each tick over a black background.
    Rectangle,
    /// Every pixel colored from its own coordinates and the phase.
    Gradient,
    /// Every pixel the same phase-derived color.
    Solid,
}

/// The fixed geometry and motion parameters of a pattern.
pub struct PatternConfig {
    pub width: usize,
    pub height: usize,
    pub rect_w: usize,
    pub rect_h: usize,
    pub step_x: usize,
    pub step_y: usize,
}

impl PatternConfig {
    /// Well-formedness: the screen geometry is positive and bounded as the
    /// frame buffer requires, the rectangle fits strictly inside the screen
    /// (so its position can wrap modulo a positive bound), and each step is
    /// no larger than the screen extent.
    pub open spec fn wf(self) -> bool {
        &&& 1 <= self.width <= crate::frame::MAX_PIXELS
        &&& 1 <= self.height <= crate::frame::MAX_PIXELS
        &&& self.width * self.height <= crate::frame::MAX_PIXELS
        &&& 1 <= self.rect_w < self.width
        &&& 1 <= self.rect_h < self.height
        &&& self.step_x <= self.width
        &&& self.step_y <= self.height
    }

    /// The wrap bound of the rectangle's horizontal position: positions stay
    /// strictly below `width - rect_w`, keeping the rectangle on-screen.
    pub open spec fn bound_x(self) -> int {
        self.width - self.rect_w
    }

    /// The wrap bound of the rectangle's vertical position.
    pub open spec fn bound_y(self) -> int {
        self.height - self.rect_h
    }
}

/// The animation state threaded from tick to tick: the rectangle position
/// and the color phase byte.
pub struct GeneratorState {
    pub x: usize,
    pub y: usize,
    pub phase: u8,
}

impl GeneratorState {
    /// The position lies inside the wrap bounds of the configuration.
    pub open spec fn wf(self, c: PatternConfig) -> bool {
        &&& self.x < c.bound_x()
        &&& self.y < c.bound_y()
    }
}

/// The state one tick after `s`: the position advances by the configured
/// step modulo its wrap bound, and the phase byte increments, wrapping from
/// 255 back to 0.
pub open spec fn spec_advance(c: PatternConfig, s: GeneratorState) -> GeneratorState {
    GeneratorState {
        x: (((s.x + c.step_x) as int) % c.bound_x()) as usize,
        y: (((s.y + c.step_y) as int) % c.bound_y()) as usize,
        phase: if s.phase == 255 {
            0
        } else {
            (s.phase + 1) as u8
        },
    }
}

/// A coordinate narrowed to the byte fed into the color packer.
pub open spec fn coord_byte(v: usize) -> u8 {
    (v % 256) as u8
}

/// The blue input of the gradient pattern: the phase scaled so that each
/// phase step lands in a distinct kept blue level (the packer keeps the top
/// 5 of 8 blue bits, so the phase is taken modulo 32 and spread by 8).
pub open spec fn gradient_blue(phase: u8) -> u8 {
    ((phase % 32) * 8) as u8
}

/// Whether `(x, y)` lies inside the rectangle at position `(s.x, s.y)`.
pub open spec fn in_rect(c: PatternConfig, s: GeneratorState, x: usize, y: usize) -> bool {
    &&& s.x <= x < s.x + c.rect_w
    &&& s.y <= y < s.y + c.rect_h
}

/// The color of the pixel at `(x, y)` for pattern `k` in state `s`.  Every
/// pixel of a frame is this function of the state and its own coordinates.
pub open spec fn pixel_at(
    c: PatternConfig,
    k: PatternKind,
    s: GeneratorState,
    x: usize,
    y: usize,
) -> u16 {
    match k {
        PatternKind::Rectangle => if in_rect(c, s, x, y) {
            spec_pack(coord_byte(x), coord_byte(y), s.phase)
        } else {
            spec_pack(0, 0, 0)
        },
        PatternKind::Gradient => spec_pack(coord_byte(x), coord_byte(y), gradient_blue(s.phase)),
        PatternKind::Solid => spec_pack(s.phase, s.phase, s.phase),
    }
}

/// Advances the animation state by one tick.  The phase byte wraps from 255
/// to 0 and the position wraps modulo its bound; no update can overflow.
pub fn advance(c: &PatternConfig, s: &GeneratorState) -> (s2: GeneratorState)
    requires
        c.wf(),
        s.wf(*c),
    ensures
        s2 == spec_advance(*c, *s),
        s2.wf(*c),
{
    let bx: usize = c.width - c.rect_w;
    let by: usize = c.height - c.rect_h;
    let x2: usize = (s.x + c.step_x) % bx;
    let y2: usize = (s.y + c.step_y) % by;
    let phase2: u8 = if s.phase == 255 {
        0
    } else {
        s.phase + 1
    };
    GeneratorState { x: x2, y: y2, phase: phase2 }
}

/// The color of the pixel at `(x, y)` for pattern `k` in state `s`.
pub fn pixel_color(
    c: &PatternConfig,
    k: PatternKind,
    s: &GeneratorState,
    x: usize,
    y: usize,
) -> (p: u16)
    requires
        c.wf(),
        s.wf(*c),
        x < c.width,
        y < c.height,
    ensures
        p == pixel_at(*c, k, *s, x, y),
{
    match k {
        PatternKind::Rectangle => {
            if s.x <= x && x < s.x + c.rect_w && s.y <= y && y < s.y + c.rect_h {
                crate::color::pack((x % 256) as u8, (y % 256) as u8, s.phase)
            } else {
                crate::color::pack(0, 0, 0)
            }
        },
        PatternKind::Gradient => {
            crate::color::pack((x % 256) as u8, (y % 256) as u8, (s.phase % 32) * 8)
        },
        PatternKind::Solid => crate::color::pack(s.phase, s.phase, s.phase),
    }
}

/// Redraws the whole frame for pattern `k` in state `s`: after the call
/// every pixel of the buffer is exactly `pixel_at` of its own coordinates.
/// The geometry of the buffer is untouched.
pub fn render(fb: &mut FrameBuffer, c: &PatternConfig, k: PatternKind, s: &GeneratorState)
    requires
        old(fb).wf(),
        c.wf(),
        s.wf(*c),
        old(fb).width == c.width,
        old(fb).height == c.height,
    ensures
        final(fb).wf(),
        final(fb).width == old(fb).width,
        final(fb).height == old(fb).height,
        forall|x: usize, y: usize|
            final(fb).in_bounds(x, y) ==> final(fb).read(x, y) == Some(
                pixel_at(*c, k, *s, x, y),
            ),
{
    let mut y: usize = 0;
    while y < c.height
        invariant
            fb.wf(),
            c.wf(),
            s.wf(*c),
            fb.width == c.width,
            fb.height == c.height,
            y <= c.height,
            forall|xx: usize, yy: usize|
                fb.in_bounds(xx, yy) && yy < y ==> fb.read(xx, yy) == Some(
                    pixel_at(*c, k, *s, xx, yy),
                ),
        decreases c.height - y,
    {
        let mut x: usize = 0;
        while x < c.width
            invariant
                fb.wf(),
                c.wf(),
                s.wf(*c),
                fb.width == c.width,
                fb.height == c.height,
                y < c.height,
                x <= c.width,
                forall|xx: usize, yy: usize|
                    fb.in_bounds(xx, yy) && yy < y ==> fb.read(xx, yy) == Some(
                        pixel_at(*c, k, *s, xx, yy),
                    ),
                forall|xx: usize|
                    xx < x ==> fb.read(xx, y) == Some(pixel_at(*c, k, *s, xx, y)),
            decreases c.width - x,
        {
            let p = pixel_color(c, k, s, x, y);
            let ghost prev = *fb;
            let applied = fb.set(x, y, p);
            proof {
                assert(applied);
                crate::frame::lemma_write_then_read(prev, *fb, x, y, p);
            }
            x = x + 1;
        }
        y = y + 1;
    }
}

/// In the gradient pattern the red and green channels depend only on the
/// pixel's own coordinates while the phase steers only the blue channel:
/// between two states the high 11 bits of every pixel agree, and the low 5
/// bits differ exactly when the phases' blue levels (phase modulo 32)
/// differ — in particular between phase 0 and phase 1 every pixel's low
/// bits change.
pub proof fn lemma_gradient_phase_only_moves_blue(
    c: PatternConfig,
    s1: GeneratorState,
    s2: GeneratorState,
    x: usize,
    y: usize,
)
    ensures
        pixel_at(c, PatternKind::Gradient, s1, x, y) / 32 == pixel_at(
            c,
            PatternKind::Gradient,
            s2,
            x,
            y,
        ) / 32,
        (pixel_at(c, PatternKind::Gradient, s1, x, y) % 32 == pixel_at(
            c,
            PatternKind::Gradient,
            s2,
            x,
            y,
        ) % 32) <==> (s1.phase % 32 == s2.phase % 32),
{
    crate::color::lemma_pack_blue_is_low_bits(
        coord_byte(x),
        coord_byte(y),
        gradient_blue(s1.phase),
        gradient_blue(s2.phase),
    );
    assert(gradient_blue(s1.phase) / 8 == s1.phase % 32);
    assert(gradient_blue(s2.phase) / 8 == s2.phase % 32);
}

} // verus!
