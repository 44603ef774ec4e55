//! The frame data model: one decoded image unit handed from the producer to
//! the presentation core, and the values the producer's channel carries.

use vstd::prelude::*;

verus! {

/// The pixel payload of a frame: either a handle to a GPU-resident texture
/// that the blit pipeline can sample, or — in the degenerate case — data in
/// some other representation (for instance raw bytes) that it cannot.
#[derive(Clone, Copy, Debug, PartialEq, Eq, Structural)]
pub enum FramePayload {
    /// A GPU-resident texture, identified by its handle.
    Texture { handle: u64 },
    /// A payload that is not a sampleable texture.
    Malformed,
}

/// One frame: an immutable value produced once by the upstream pipeline.
/// The core borrows it for the duration of one blit and never retains it.
#[derive(Clone, Copy, Debug, PartialEq, Eq, Structural)]
pub struct Frame {
    pub payload: FramePayload,
    /// Presentation timestamp, in milliseconds from stream start.
    pub pts_ms: u64,
}

/// What the producer delivers over the channel: an image payload, or an
/// end-of-stream control marker that the core ignores.
#[derive(Clone, Copy, Debug, PartialEq, Eq, Structural)]
pub enum SourceEvent {
    Data { frame: Frame },
    Eos,
}

} // verus!
