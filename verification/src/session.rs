//! The orchestrating loop of the pipeline, one tick at a time.
//!
//! Each tick reclaims the frame buffer from the previous transfer (or, on
//! the very first tick, takes the producer-held buffer pre-filled with a
//! sentinel), advances the animation state, redraws the whole frame,
//! submits it for transfer and hands the caller the frame's wire bytes.
//! The caller owns the real loop: it moves the bytes over the hardware,
//! paces the frame rate, and reports the transfer's outcome into the next
//! tick.  A reported transport fault is fatal — the session halts and every
//! later tick is refused.

use crate::engine::TransferEngine;
use crate::engine::TransferOutcome;
use crate::engine::Transport;
use crate::frame::FrameBuffer;
use crate::pattern::GeneratorState;
use crate::pattern::PatternConfig;
use crate::pattern::PatternKind;
use crate::pattern::pixel_at;
use crate::pattern::spec_advance;
use vstd::prelude::*;

verus! {

/// The pixel value every frame starts from before the first redraw (all
/// bits set, the byte pattern the hardware buffer is cleared to).
pub const SENTINEL_PIXEL: u16 = 0xffff;

/// Why a tick did no work.
#[derive(Clone, Copy, PartialEq, Eq, Structural, Debug)]
pub enum SessionError {
    /// The transport reported a bus-level fault while reclaiming the
    /// in-flight frame; the session is dead from here on.
    TransferFault,
    /// The session was already halted by an earlier fault.
    Halted,
}

/// The frame counter after one more tick, wrapping to zero at the top.
pub open spec fn wrap_inc(n: u64) -> u64 {
    if n == u64::MAX {
        0
    } else {
        (n + 1) as u64
    }
}

/// The whole pipeline state threaded through the display loop: pattern
/// configuration and animation state, the frame counter, the transfer
/// engine, and — before the first submission only — the producer-held
/// buffer and transport.
pub struct DisplaySession {
    pub config: PatternConfig,
    pub kind: PatternKind,
    pub state: GeneratorState,
    pub frames: u64,
    pub engine: TransferEngine,
    pub producer_held: Option<(FrameBuffer, Transport)>,
    pub halted: bool,
}

impl DisplaySession {
    /// Well-formedness: the configuration and animation state are valid,
    /// and while the session lives exactly one side owns the frame buffer —
    /// either the producer (before the first submission) or the engine
    /// (while a transfer is in flight) — and the buffer matches the screen
    /// geometry.
    pub open spec fn wf(self) -> bool {
        &&& self.config.wf()
        &&& self.state.wf(self.config)
        &&& !self.halted ==> !self.engine.is_faulted()
        &&& !self.halted ==> (self.engine.is_submitted() <==> self.producer_held is None)
        &&& self.producer_held matches Some(held) ==> {
            &&& held.0.wf()
            &&& held.0.width == self.config.width
            &&& held.0.height == self.config.height
        }
        &&& self.engine.is_submitted() ==> {
            &&& self.engine.held_buffer().wf()
            &&& self.engine.held_buffer().width == self.config.width
            &&& self.engine.held_buffer().height == self.config.height
        }
    }

    /// Whether the last submitted frame shows pattern `k` in state `s`:
    /// every pixel of the engine-held buffer is `pixel_at` of its own
    /// coordinates.
    pub open spec fn shows(self, s: GeneratorState) -> bool {
        forall|x: usize, y: usize|
            self.engine.held_buffer().in_bounds(x, y) ==> self.engine.held_buffer().read(x, y)
                == Some(pixel_at(self.config, self.kind, s, x, y))
    }

    /// Builds a session at tick zero: animation state at the origin with
    /// phase 0, the frame buffer producer-held and pre-filled with the
    /// sentinel pixel, nothing in flight.
    pub fn new(config: PatternConfig, kind: PatternKind, transport: Transport) -> (s:
        DisplaySession)
        requires
            config.wf(),
        ensures
            s.wf(),
            s.config == config,
            s.kind == kind,
            s.state == (GeneratorState { x: 0, y: 0, phase: 0 }),
            s.frames == 0,
            !s.halted,
            s.engine.is_idle(),
            s.producer_held matches Some(held) && held.1 == transport && forall|
                x: usize,
                y: usize,
            |
                held.0.in_bounds(x, y) ==> held.0.read(x, y) == Some(SENTINEL_PIXEL),
    {
        let buffer = FrameBuffer::new(config.width, config.height, SENTINEL_PIXEL);
        DisplaySession {
            config,
            kind,
            state: GeneratorState { x: 0, y: 0, phase: 0 },
            frames: 0,
            engine: TransferEngine::new(),
            producer_held: Some((buffer, transport)),
            halted: false,
        }
    }

    /// Runs one iteration of the display loop.  `outcome` is what the
    /// caller observed of the transfer submitted by the previous tick (it
    /// is ignored when nothing is in flight).  On success the animation
    /// state advances by one step, the reclaimed buffer is fully redrawn
    /// for the new state and submitted again, and the returned bytes are
    /// the redrawn frame's wire stream: row-major, big-endian per pixel.
    /// A reported fault halts the session for good.
    pub fn tick(&mut self, outcome: TransferOutcome) -> (r: Result<Vec<u8>, SessionError>)
        requires
            old(self).wf(),
        ensures
            final(self).wf(),
            final(self).config == old(self).config,
            final(self).kind == old(self).kind,
            old(self).halted ==> {
                &&& r == Err::<Vec<u8>, SessionError>(SessionError::Halted)
                &&& *final(self) == *old(self)
            },
            !old(self).halted && old(self).engine.is_submitted() && outcome
                == TransferOutcome::Fault ==> {
                &&& r == Err::<Vec<u8>, SessionError>(SessionError::TransferFault)
                &&& final(self).halted
                &&& final(self).engine.is_faulted()
                &&& final(self).state == old(self).state
                &&& final(self).frames == old(self).frames
            },
            !old(self).halted && (!old(self).engine.is_submitted() || outcome
                == TransferOutcome::Done) ==> {
                &&& final(self).state == spec_advance(old(self).config, old(self).state)
                &&& final(self).frames == wrap_inc(old(self).frames)
                &&& !final(self).halted
                &&& final(self).engine.is_submitted()
                &&& final(self).shows(final(self).state)
                &&& r matches Ok(bytes) && final(self).engine.held_buffer().encodes(bytes@)
                &&& old(self).engine.is_submitted() ==> final(self).engine.held_transport()
                    == old(self).engine.held_transport()
                &&& !old(self).engine.is_submitted() ==> final(self).engine.held_transport()
                    == old(self).producer_held->Some_0.1
            },
    {
        if self.halted {
            return Err(SessionError::Halted);
        }
        let reclaimed: (Transport, FrameBuffer);
        if self.engine.in_flight() {
            match self.engine.wait(outcome) {
                Ok(pair) => {
                    reclaimed = pair;
                },
                Err(_) => {
                    self.halted = true;
                    return Err(SessionError::TransferFault);
                },
            }
        } else {
            match self.producer_held.take() {
                Some((buffer, transport)) => {
                    reclaimed = (transport, buffer);
                },
                None => {
                    // wf rules this arm out: when nothing is in flight the
                    // producer holds the buffer.
                    assert(false);
                    return Err(SessionError::Halted);
                },
            }
        }
        let (transport, mut buffer) = reclaimed;
        let next = crate::pattern::advance(&self.config, &self.state);
        self.state = next;
        crate::pattern::render(&mut buffer, &self.config, self.kind, &self.state);
        let bytes = buffer.to_bytes();
        match self.engine.submit(buffer, transport) {
            Ok(()) => {},
            Err(_) => {
                // The engine is idle at this point, so submission cannot be
                // refused.
                assert(false);
                return Err(SessionError::Halted);
            },
        }
        self.frames = if self.frames == u64::MAX {
            0
        } else {
            self.frames + 1
        };
        Ok(bytes)
    }
}

} // verus!
