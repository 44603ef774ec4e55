//! Trace-level properties of the presentation loop: what holds of whole
//! sequences of window events and producer deliveries, not just of a single
//! step.

use vstd::prelude::*;

use crate::channel::{deliver_all, lemma_newest_wins, take_result_of};
use crate::frame::{Frame, FramePayload, SourceEvent};
use crate::presentation::{run_model, step_model, step_presents, LoopEvent, LoopModel};

verus! {

/// The step that stops the event pump: the end of an iteration's event
/// drain while a close is pending.
pub open spec fn step_exits(m: LoopModel, ev: LoopEvent) -> bool {
    m.phase is ClosePending && ev is AboutToWait
}

/// Running a trace piecewise is running it whole.
pub proof fn lemma_run_model_concat(m: LoopModel, a: Seq<LoopEvent>, b: Seq<LoopEvent>)
    ensures
        run_model(m, a + b) == run_model(run_model(m, a), b),
    decreases b.len(),
{
    if b.len() == 0 {
        assert(a + b =~= a);
    } else {
        lemma_run_model_concat(m, a, b.drop_last());
        assert((a + b).drop_last() =~= a + b.drop_last());
    }
}

/// Once the loop has left `Running`, no event brings it back.
pub proof fn lemma_not_running_stays(m: LoopModel, events: Seq<LoopEvent>)
    requires
        !(m.phase is Running),
    ensures
        !(run_model(m, events).phase is Running),
    decreases events.len(),
{
    if events.len() > 0 {
        lemma_not_running_stays(m, events.drop_last());
    }
}

/// The terminal phase is absorbing: after `Exited`, no event changes the
/// state at all.
pub proof fn lemma_exited_absorbing(m: LoopModel, events: Seq<LoopEvent>)
    requires
        m.phase is Exited,
    ensures
        run_model(m, events) == m,
    decreases events.len(),
{
    if events.len() > 0 {
        lemma_exited_absorbing(m, events.drop_last());
    }
}

/// After a close-request event, no further draw call occurs: whatever later
/// events arrive and whatever the producer delivers, no later step of the
/// trace presents a frame.
pub proof fn lemma_no_draw_after_close(m: LoopModel, events: Seq<LoopEvent>, i: int, j: int)
    requires
        0 <= i < j < events.len(),
        events[i] is CloseRequested,
    ensures
        !step_presents(run_model(m, events.take(j)), events[j]),
{
    let before = events.take(i + 1);
    let after = events.subrange(i + 1, j);
    assert(before.drop_last() =~= events.take(i));
    assert(before.last() == events[i]);
    let mc = run_model(m, before);
    assert(!(mc.phase is Running));
    assert(events.take(j) =~= before + after);
    lemma_run_model_concat(m, before, after);
    lemma_not_running_stays(mc, after);
}

/// A pending close survives everything but the end of the event drain.
pub proof fn lemma_close_pending_stays(m: LoopModel, events: Seq<LoopEvent>)
    requires
        m.phase is ClosePending,
        forall|k: int| 0 <= k < events.len() ==> !(events[k] is AboutToWait),
    ensures
        run_model(m, events).phase is ClosePending,
    decreases events.len(),
{
    if events.len() > 0 {
        assert(forall|k: int|
            0 <= k < events.len() - 1 ==> events.drop_last()[k] == events[k]);
        lemma_close_pending_stays(m, events.drop_last());
    }
}

/// The terminal phase is reached: the first end-of-drain after a close
/// request does stop the event pump.
pub proof fn lemma_exit_is_reached(m: LoopModel, events: Seq<LoopEvent>, i: int, j: int)
    requires
        0 <= i < j < events.len(),
        events[i] is CloseRequested,
        run_model(m, events.take(i)).phase is Running,
        events[j] is AboutToWait,
        forall|k: int| i < k < j ==> !(events[k] is AboutToWait),
    ensures
        step_exits(run_model(m, events.take(j)), events[j]),
{
    let before = events.take(i + 1);
    let after = events.subrange(i + 1, j);
    assert(before.drop_last() =~= events.take(i));
    assert(before.last() == events[i]);
    let mc = run_model(m, before);
    assert(mc.phase is ClosePending);
    assert(events.take(j) =~= before + after);
    lemma_run_model_concat(m, before, after);
    assert(forall|k: int| 0 <= k < after.len() ==> !(after[k] is AboutToWait)) by {
        assert(forall|k: int| 0 <= k < after.len() ==> after[k] == events[i + 1 + k]);
    }
    lemma_close_pending_stays(mc, after);
}

/// The loop reaches its terminal phase at most once: no two steps of one
/// trace both stop the event pump.
pub proof fn lemma_exits_at_most_once(m: LoopModel, events: Seq<LoopEvent>, i: int, j: int)
    requires
        0 <= i < j < events.len(),
        step_exits(run_model(m, events.take(i)), events[i]),
    ensures
        !step_exits(run_model(m, events.take(j)), events[j]),
{
    let before = events.take(i + 1);
    let after = events.subrange(i + 1, j);
    assert(before.drop_last() =~= events.take(i));
    assert(before.last() == events[i]);
    let mc = run_model(m, before);
    assert(mc.phase is Exited);
    assert(events.take(j) =~= before + after);
    lemma_run_model_concat(m, before, after);
    lemma_exited_absorbing(mc, after);
}

/// Events that are not resizes leave the surface dimensions alone.
pub proof fn lemma_dims_stable(m: LoopModel, events: Seq<LoopEvent>)
    requires
        forall|k: int| 0 <= k < events.len() ==> !(events[k] is Resized),
    ensures
        run_model(m, events).width == m.width,
        run_model(m, events).height == m.height,
    decreases events.len(),
{
    if events.len() > 0 {
        assert(forall|k: int|
            0 <= k < events.len() - 1 ==> events.drop_last()[k] == events[k]);
        lemma_dims_stable(m, events.drop_last());
    }
}

/// A fully processed resize strictly precedes every draw that uses its
/// dimensions: once the resize at `i` has been handled and no later resize
/// intervenes, the surface that any step at `j` targets has exactly the new
/// dimensions — no draw uses stale ones.
pub proof fn lemma_resize_precedes_draws(
    m: LoopModel,
    events: Seq<LoopEvent>,
    i: int,
    j: int,
    w: u32,
    h: u32,
)
    requires
        0 <= i < j < events.len(),
        events[i] == (LoopEvent::Resized { width: w, height: h }),
        !(run_model(m, events.take(i)).phase is Exited),
        forall|k: int| i < k < j ==> !(events[k] is Resized),
    ensures
        run_model(m, events.take(j)).width == w,
        run_model(m, events.take(j)).height == h,
{
    let before = events.take(i + 1);
    let after = events.subrange(i + 1, j);
    assert(before.drop_last() =~= events.take(i));
    assert(before.last() == events[i]);
    let mc = run_model(m, before);
    assert(mc.width == w && mc.height == h);
    assert(events.take(j) =~= before + after);
    lemma_run_model_concat(m, before, after);
    assert(forall|k: int| 0 <= k < after.len() ==> !(after[k] is Resized)) by {
        assert(forall|k: int| 0 <= k < after.len() ==> after[k] == events[i + 1 + k]);
    }
    lemma_dims_stable(mc, after);
}

/// At each presentation opportunity the loop presents exactly the newest
/// arrived frame: after a burst of deliveries ending in an image frame, the
/// next redraw step presents that frame's texture and leaves the channel
/// empty — superseded deliveries are never presented, and nothing queues up.
pub proof fn lemma_presents_newest(m: LoopModel, burst: Seq<SourceEvent>, f: Frame, handle: u64)
    requires
        m.phase is Running,
        burst.len() > 0,
        burst.last() == (SourceEvent::Data { frame: f }),
        f.payload == (FramePayload::Texture { handle }),
    ensures
        ({
            let delivered = LoopModel { pending: deliver_all(m.pending, burst), ..m };
            let stepped = step_model(delivered, LoopEvent::RedrawRequested);
            stepped.last_presented == Some(handle) && stepped.pending is None
        }),
{
    lemma_newest_wins(m.pending, burst);
}

/// If no frame arrives between two presentation opportunities, the redraw
/// is a no-op cycle: the previously presented image stays presented, and
/// the loop's phase and the surface dimensions are untouched.
pub proof fn lemma_no_frame_keeps_image(m: LoopModel)
    requires
        m.phase is Running,
        take_result_of(m.pending) is NoFrame,
    ensures
        step_model(m, LoopEvent::RedrawRequested).last_presented == m.last_presented,
        step_model(m, LoopEvent::RedrawRequested).phase == m.phase,
        step_model(m, LoopEvent::RedrawRequested).width == m.width,
        step_model(m, LoopEvent::RedrawRequested).height == m.height,
{
}

/// Nothing but the close path ends the loop: an event changes the control
/// phase only if it is the close request itself or the end of the event
/// drain that completes one. In particular no error inside an iteration —
/// a missing or malformed frame — ever moves the loop towards termination.
pub proof fn lemma_only_close_changes_phase(m: LoopModel, ev: LoopEvent)
    ensures
        step_model(m, ev).phase != m.phase ==> (ev is CloseRequested || ev is AboutToWait),
{
}

/// A malformed delivery is contained to its iteration: the redraw that
/// meets it presents nothing and changes no state except draining the
/// channel, and the loop keeps running — it never terminates over it.
pub proof fn lemma_mismatch_keeps_running(m: LoopModel)
    requires
        m.phase is Running,
        take_result_of(m.pending) is FormatMismatch,
    ensures
        !step_presents(m, LoopEvent::RedrawRequested),
        step_model(m, LoopEvent::RedrawRequested).phase is Running,
        step_model(m, LoopEvent::RedrawRequested).last_presented == m.last_presented,
{
}

} // verus!
