//! The presentation loop: a single-threaded, cooperative, poll-driven
//! control loop. Each handled window event is one decision step; the
//! embedder pumps the window system's events through `handle_event` and
//! performs the returned action (reconfigure the surface, execute a command
//! stream and request another redraw, log a skipped frame, or stop).
//!
//! The loop never blocks on the producer: polling the channel is
//! non-blocking, and an iteration with no pending frame is a no-op cycle.

use vstd::prelude::*;

use crate::blit::{BlitPipeline, GpuCommand, present_commands};
use crate::channel::{FrameSlot, TakeResult, take_result_of};
use crate::frame::SourceEvent;
use crate::surface::{SurfaceManager, TextureFormat};

verus! {

/// The window-system events the loop must handle explicitly.
#[derive(Clone, Copy, Debug, PartialEq, Eq, Structural)]
pub enum LoopEvent {
    /// The window was resized to the given inner size.
    Resized { width: u32, height: u32 },
    /// The user asked to close the window.
    CloseRequested,
    /// A presentation opportunity.
    RedrawRequested,
    /// The pending events of this iteration have all been drained.
    AboutToWait,
    /// Anything else; ignored.
    Other,
}

/// The loop's control state.
#[derive(Clone, Copy, Debug, PartialEq, Eq, Structural)]
pub enum Phase {
    /// Polling and presenting.
    Running,
    /// A close was requested; the loop finishes draining events, draws
    /// nothing further, and exits at the end of the iteration.
    ClosePending,
    /// Terminal: the loop has stopped, and nothing changes any more.
    Exited,
}

/// What one handled event asks the embedder to do.
#[derive(Clone, Debug, PartialEq, Eq)]
pub enum StepAction {
    /// Nothing to perform.
    Idle,
    /// Apply the rebuilt configuration to the live surface.
    Reconfigure { width: u32, height: u32 },
    /// Execute this command stream against the device and surface, then
    /// request another redraw so the loop keeps polling. `width` and
    /// `height` are the surface dimensions the draw targets.
    Present { commands: Vec<GpuCommand>, width: u32, height: u32 },
    /// No new frame was pending: draw nothing, leaving the previously
    /// presented image on screen.
    SkipNoFrame,
    /// The pending delivery was not a sampleable image: log a format
    /// mismatch, draw nothing, keep polling.
    SkipFormatMismatch,
    /// The loop has reached its terminal state: stop the event pump.
    Exit,
}

/// Everything a trace-level argument needs of the loop's state.
#[derive(Clone, Copy, Debug, PartialEq, Eq, Structural)]
pub struct LoopModel {
    pub phase: Phase,
    pub width: u32,
    pub height: u32,
    pub format: TextureFormat,
    pub pending: Option<SourceEvent>,
    /// The texture handle of the frame most recently presented, if any.
    pub last_presented: Option<u64>,
}

/// The control phase one event leads to. `Exited` is absorbing; a close
/// request leaves `Running` for good; only the end of an iteration's event
/// drain (`AboutToWait`) turns a pending close into the terminal phase.
pub open spec fn next_phase(p: Phase, ev: LoopEvent) -> Phase {
    match p {
        Phase::Exited => Phase::Exited,
        Phase::ClosePending => if ev is AboutToWait {
            Phase::Exited
        } else {
            Phase::ClosePending
        },
        Phase::Running => if ev is CloseRequested {
            Phase::ClosePending
        } else {
            Phase::Running
        },
    }
}

/// Whether handling `ev` in state `m` presents a frame: only a redraw
/// opportunity, only while running, and only when a sampleable frame is
/// pending.
pub open spec fn step_presents(m: LoopModel, ev: LoopEvent) -> bool {
    m.phase is Running && ev is RedrawRequested && take_result_of(m.pending) is Taken
}

/// What the newly presented handle is after a step, given what was pending.
pub open spec fn presented_after(pending: Option<SourceEvent>, last: Option<u64>) -> Option<u64> {
    match take_result_of(pending) {
        TakeResult::Taken { texture, pts_ms } => Some(texture),
        _ => last,
    }
}

/// The loop's whole decision function, one event at a time.
pub open spec fn step_model(m: LoopModel, ev: LoopEvent) -> LoopModel {
    match ev {
        LoopEvent::Resized { width, height } => if m.phase is Exited {
            m
        } else {
            LoopModel { width, height, ..m }
        },
        LoopEvent::CloseRequested => LoopModel { phase: next_phase(m.phase, ev), ..m },
        LoopEvent::RedrawRequested => if m.phase is Running {
            LoopModel {
                pending: None,
                last_presented: presented_after(m.pending, m.last_presented),
                ..m
            }
        } else {
            m
        },
        LoopEvent::AboutToWait => LoopModel { phase: next_phase(m.phase, ev), ..m },
        LoopEvent::Other => m,
    }
}

/// The model after a whole trace of window events.
pub open spec fn run_model(m: LoopModel, events: Seq<LoopEvent>) -> LoopModel
    decreases events.len(),
{
    if events.len() == 0 {
        m
    } else {
        step_model(run_model(m, events.drop_last()), events.last())
    }
}

/// The presentation loop's state: control phase, surface manager, producer
/// channel, the fixed blit pipeline, and the most recently presented frame.
pub struct PresentationLoop {
    pub phase: Phase,
    pub surface: SurfaceManager,
    pub channel: FrameSlot,
    pub blit: BlitPipeline,
    pub last_presented: Option<u64>,
}

impl PresentationLoop {
    /// The startup choices hold, and the blit pipeline targets the surface's
    /// own format.
    pub open spec fn wf(self) -> bool {
        &&& self.surface.wf()
        &&& self.blit.wf()
        &&& self.blit.target_format == self.surface.config.format
    }

    /// This loop state, abstracted to what the trace-level laws speak of.
    pub open spec fn model(self) -> LoopModel {
        LoopModel {
            phase: self.phase,
            width: self.surface.config.width,
            height: self.surface.config.height,
            format: self.surface.config.format,
            pending: self.channel@,
            last_presented: self.last_presented,
        }
    }

    /// Start the loop over a freshly configured surface: running, channel
    /// empty, nothing presented yet.
    pub fn new(format: TextureFormat, width: u32, height: u32) -> (l: Self)
        ensures
            l.wf(),
            l.model() == (LoopModel {
                phase: Phase::Running,
                width,
                height,
                format,
                pending: None,
                last_presented: None,
            }),
    {
        PresentationLoop {
            phase: Phase::Running,
            surface: SurfaceManager::new(format, width, height),
            channel: FrameSlot::new(),
            blit: BlitPipeline::new(format),
            last_presented: None,
        }
    }

    /// Handle one window event: the loop's single decision step.
    ///
    /// A resize rebuilds the surface configuration before any later draw can
    /// run; a redraw opportunity polls the channel without blocking and
    /// presents the newest pending frame, if it is a sampleable image;
    /// errors inside an iteration (no frame, malformed frame) are contained
    /// to that iteration; only a close request followed by the end of an
    /// event drain reaches the terminal phase.
    pub fn handle_event(&mut self, event: LoopEvent) -> (action: StepAction)
        requires
            old(self).wf(),
        ensures
            final(self).wf(),
            final(self).blit == old(self).blit,
            final(self).model() == step_model(old(self).model(), event),
            match event {
                LoopEvent::Resized { width, height } => if old(self).phase is Exited {
                    action is Idle
                } else {
                    action == (StepAction::Reconfigure { width, height })
                },
                LoopEvent::CloseRequested => action is Idle,
                LoopEvent::RedrawRequested => if old(self).phase is Running {
                    match take_result_of(old(self).channel@) {
                        TakeResult::NoFrame => action is SkipNoFrame,
                        TakeResult::FormatMismatch => action is SkipFormatMismatch,
                        TakeResult::Taken { texture, pts_ms } => action matches
                            StepAction::Present { commands, width, height }
                            && commands@ == present_commands(texture)
                            && width == old(self).surface.config.width
                            && height == old(self).surface.config.height,
                    }
                } else {
                    action is Idle
                },
                LoopEvent::AboutToWait => if old(self).phase is ClosePending {
                    action is Exit
                } else {
                    action is Idle
                },
                LoopEvent::Other => action is Idle,
            },
    {
        match event {
            LoopEvent::Resized { width, height } => {
                if self.phase == Phase::Exited {
                    StepAction::Idle
                } else {
                    self.surface.configure(width, height);
                    StepAction::Reconfigure { width, height }
                }
            },
            LoopEvent::CloseRequested => {
                if self.phase == Phase::Running {
                    self.phase = Phase::ClosePending;
                }
                StepAction::Idle
            },
            LoopEvent::RedrawRequested => {
                if self.phase == Phase::Running {
                    match self.channel.try_take() {
                        TakeResult::NoFrame => StepAction::SkipNoFrame,
                        TakeResult::FormatMismatch => StepAction::SkipFormatMismatch,
                        TakeResult::Taken { texture, .. } => {
                            let commands = self.blit.encode_present(texture);
                            self.last_presented = Some(texture);
                            StepAction::Present {
                                commands,
                                width: self.surface.config.width,
                                height: self.surface.config.height,
                            }
                        },
                    }
                } else {
                    StepAction::Idle
                }
            },
            LoopEvent::AboutToWait => {
                if self.phase == Phase::ClosePending {
                    self.phase = Phase::Exited;
                    StepAction::Exit
                } else {
                    StepAction::Idle
                }
            },
            LoopEvent::Other => StepAction::Idle,
        }
    }
}

} // verus!
