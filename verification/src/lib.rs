//! A real-time frame-presentation core: a single-threaded, poll-driven loop
//! that takes decoded video frames from a one-slot producer channel and blits
//! the newest one onto a window surface, while staying responsive to resize
//! and close events.
//!
//! The GPU and windowing calls themselves live outside this crate; here the
//! loop's decisions, the channel's newest-wins handoff, the surface
//! configuration, and the exact command stream of each blit are modelled as
//! plain data and verified.

use vstd::prelude::*;

pub mod blit;
pub mod channel;
pub mod frame;
pub mod presentation;
pub mod surface;
pub mod traces;

verus! {

/// Base directory against which the producer's media source path is resolved.
/// The caller supplies the build-time manifest directory.
pub fn root_dir(manifest_dir: &str) -> (r: String)
    ensures
        r@ == manifest_dir@,
{
    manifest_dir.to_owned()
}

} // verus!
