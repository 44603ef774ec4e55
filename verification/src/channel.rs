//! The frame channel interface: a one-slot, overwrite-on-overflow handoff
//! between the producer and the presentation loop. The slot holds at most one
//! undelivered value; a new delivery overwrites an unconsumed previous one,
//! so the newest delivery always wins and no queue can grow.

use vstd::prelude::*;

use crate::frame::{Frame, FramePayload, SourceEvent};

verus! {

/// The outcome of polling the channel once.
#[derive(Clone, Copy, Debug, PartialEq, Eq, Structural)]
pub enum TakeResult {
    /// Nothing new has arrived since the last take (or the producer has gone
    /// quiet or closed its end): the caller should draw nothing.
    NoFrame,
    /// The newest delivered frame, a sampleable image.
    Taken { texture: u64, pts_ms: u64 },
    /// The newest delivery was not in the expected image representation: the
    /// caller should log a format mismatch, skip it, and keep polling.
    FormatMismatch,
}

/// What one poll of a slot holding `pending` must report.
pub open spec fn take_result_of(pending: Option<SourceEvent>) -> TakeResult {
    match pending {
        None => TakeResult::NoFrame,
        Some(SourceEvent::Eos) => TakeResult::NoFrame,
        Some(SourceEvent::Data { frame }) => match frame.payload {
            FramePayload::Texture { handle } => (TakeResult::Taken {
                texture: handle,
                pts_ms: frame.pts_ms,
            }),
            FramePayload::Malformed => TakeResult::FormatMismatch,
        },
    }
}

/// The producer's delivery channel, seen from the consumer: a single cell
/// that holds the newest undelivered value, if any.
pub struct FrameSlot {
    pending: Option<SourceEvent>,
}

impl View for FrameSlot {
    type V = Option<SourceEvent>;

    closed spec fn view(&self) -> Option<SourceEvent> {
        self.pending
    }
}

/// What one delivery leaves in the slot: the new value, whatever was there.
pub open spec fn slot_put(pending: Option<SourceEvent>, ev: SourceEvent) -> Option<SourceEvent> {
    Some(ev)
}

/// The slot a whole burst of deliveries leaves behind.
pub open spec fn deliver_all(init: Option<SourceEvent>, burst: Seq<SourceEvent>) -> Option<
    SourceEvent,
>
    decreases burst.len(),
{
    if burst.len() == 0 {
        init
    } else {
        slot_put(deliver_all(init, burst.drop_last()), burst.last())
    }
}

impl FrameSlot {
    /// An empty channel: nothing pending.
    pub fn new() -> (s: Self)
        ensures
            s@ is None,
    {
        FrameSlot { pending: None }
    }

    /// Producer side: deliver one value. An unconsumed previous value is
    /// overwritten — the newest delivery wins, and at most one value is ever
    /// pending.
    pub fn put(&mut self, ev: SourceEvent)
        ensures
            final(self)@ == slot_put(old(self)@, ev),
    {
        self.pending = Some(ev);
    }

    /// Consumer side: non-blocking poll. Takes the pending value, if any,
    /// out of the slot and classifies it; never waits for the producer.
    pub fn try_take(&mut self) -> (r: TakeResult)
        ensures
            final(self)@ is None,
            r == take_result_of(old(self)@),
    {
        let taken = self.pending;
        self.pending = None;
        match taken {
            None => TakeResult::NoFrame,
            Some(SourceEvent::Eos) => TakeResult::NoFrame,
            Some(SourceEvent::Data { frame }) => match frame.payload {
                FramePayload::Texture { handle } => TakeResult::Taken {
                    texture: handle,
                    pts_ms: frame.pts_ms,
                },
                FramePayload::Malformed => TakeResult::FormatMismatch,
            },
        }
    }
}

/// Newest wins: however fast the producer delivers, a non-empty burst of
/// deliveries leaves exactly its newest value pending — every earlier
/// undelivered value is dropped by the channel, and nothing queues up.
pub proof fn lemma_newest_wins(init: Option<SourceEvent>, burst: Seq<SourceEvent>)
    requires
        burst.len() > 0,
    ensures
        deliver_all(init, burst) == Some(burst.last()),
{
}

} // verus!
