//! Single-owner hand-off of a frame buffer to the background transport.
//!
//! The engine tracks which side owns the frame while a transfer is in
//! flight.  `submit` moves the buffer and the transport token into the
//! engine and is refused while a transfer is already in flight — a second
//! submission is handed straight back, never queued or dropped.  `wait`
//! hands both resources back to the producer once the caller reports that
//! the hardware finished; the engine itself never touches the pixels, so
//! the buffer comes back exactly as it was submitted.  A reported transport
//! fault is fatal: the engine moves to a terminal faulted state and the
//! in-flight resources are considered lost to the hardware.

use crate::frame::FrameBuffer;
use vstd::prelude::*;

verus! {

/// The token for the configured serial/DMA link.  The core never drives the
/// bus itself; holding the token stands for the exclusive right to start a
/// transfer on it.
pub struct Transport {
    pub id: u64,
}

/// What the hardware reported for the transfer the caller polled: clean
/// completion, or a bus-level fault.
#[derive(Clone, Copy, PartialEq, Eq, Structural, Debug)]
pub enum TransferOutcome {
    Done,
    Fault,
}

/// Why the engine refused to hand resources back.
#[derive(Clone, Copy, PartialEq, Eq, Structural, Debug)]
pub enum EngineError {
    /// `wait` was called with no transfer in flight.
    NotInFlight,
    /// The transport reported a bus-level fault; the engine is dead.
    TransferFault,
}

/// An in-flight transfer: it owns the frame buffer and the transport token
/// for the transfer's duration, so the producer holds no reference to
/// either until `wait` dissolves the handle.
pub struct TransferHandle {
    pub buffer: FrameBuffer,
    pub transport: Transport,
}

/// The transfer state machine.  Idle: the producer owns buffer and
/// transport.  Submitted: a handle holds both, handed to the hardware.
/// Faulted: a transfer failed; the engine accepts nothing further.
pub struct TransferEngine {
    pub in_flight: Option<TransferHandle>,
    pub faulted: bool,
}

impl TransferEngine {
    /// No transfer in flight and no fault recorded: `submit` is accepted.
    pub open spec fn is_idle(self) -> bool {
        self.in_flight is None && !self.faulted
    }

    /// A transfer is in flight: the engine owns the buffer and transport.
    pub open spec fn is_submitted(self) -> bool {
        self.in_flight is Some && !self.faulted
    }

    /// A transfer faulted: terminal, nothing is accepted any more.
    pub open spec fn is_faulted(self) -> bool {
        self.faulted
    }

    /// The frame buffer held while a transfer is in flight.
    pub open spec fn held_buffer(self) -> FrameBuffer
        recommends
            self.is_submitted(),
    {
        self.in_flight->Some_0.buffer
    }

    /// The transport token held while a transfer is in flight.
    pub open spec fn held_transport(self) -> Transport
        recommends
            self.is_submitted(),
    {
        self.in_flight->Some_0.transport
    }

    /// A fresh engine with the transport ready and nothing in flight.
    pub fn new() -> (e: TransferEngine)
        ensures
            e.is_idle(),
    {
        TransferEngine { in_flight: None, faulted: false }
    }

    /// Whether a transfer is currently in flight.
    pub fn in_flight(&self) -> (b: bool)
        ensures
            b == self.is_submitted(),
    {
        match &self.in_flight {
            Some(_) => !self.faulted,
            None => false,
        }
    }

    /// Hands `buffer` and `transport` to the engine and starts the
    /// asynchronous transfer.  Accepted exactly when the engine is idle;
    /// otherwise both resources are returned unchanged to the caller and
    /// the engine does not move.
    pub fn submit(&mut self, buffer: FrameBuffer, transport: Transport) -> (r: Result<
        (),
        (FrameBuffer, Transport),
    >)
        ensures
            old(self).is_idle() ==> {
                &&& r is Ok
                &&& final(self).is_submitted()
                &&& final(self).held_buffer() == buffer
                &&& final(self).held_transport() == transport
            },
            !old(self).is_idle() ==> {
                &&& r == Err::<(), (FrameBuffer, Transport)>((buffer, transport))
                &&& *final(self) == *old(self)
            },
    {
        if self.faulted {
            return Err((buffer, transport));
        }
        match &self.in_flight {
            Some(_) => Err((buffer, transport)),
            None => {
                self.in_flight = Some(TransferHandle { buffer, transport });
                Ok(())
            },
        }
    }

    /// Blocks the pipeline on the in-flight transfer and reclaims the
    /// resources.  The caller performs the hardware poll and passes what it
    /// observed; on clean completion the very buffer that was submitted
    /// comes back, contents untouched by the engine, together with the
    /// transport token, and the engine is idle again.  A reported fault is
    /// fatal: the engine moves to the terminal faulted state.  With no
    /// transfer in flight nothing changes and the call is refused.
    pub fn wait(&mut self, outcome: TransferOutcome) -> (r: Result<
        (Transport, FrameBuffer),
        EngineError,
    >)
        ensures
            old(self).is_submitted() && outcome == TransferOutcome::Done ==> {
                &&& r == Ok::<(Transport, FrameBuffer), EngineError>(
                    (old(self).held_transport(), old(self).held_buffer()),
                )
                &&& final(self).is_idle()
            },
            old(self).is_submitted() && outcome == TransferOutcome::Fault ==> {
                &&& r == Err::<(Transport, FrameBuffer), EngineError>(
                    EngineError::TransferFault,
                )
                &&& final(self).is_faulted()
            },
            !old(self).is_submitted() ==> {
                &&& r == Err::<(Transport, FrameBuffer), EngineError>(EngineError::NotInFlight)
                &&& *final(self) == *old(self)
            },
    {
        if self.faulted {
            return Err(EngineError::NotInFlight);
        }
        let held = self.in_flight.take();
        match held {
            None => Err(EngineError::NotInFlight),
            Some(TransferHandle { buffer, transport }) => {
                match outcome {
                    TransferOutcome::Done => Ok((transport, buffer)),
                    TransferOutcome::Fault => {
                        self.faulted = true;
                        Err(EngineError::TransferFault)
                    },
                }
            },
        }
    }
}

} // verus!
