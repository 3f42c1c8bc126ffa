//! When the display loop redraws: messages are handled in batches, and the
//! display is redrawn after a full batch, or when the channel goes quiet with
//! messages handled since the last redraw.
use vstd::prelude::*;

verus! {

/// The number of messages handled between redraws when messages keep coming.
pub const MAX_BATCH_SIZE: usize = 50;

/// The number of messages handled since the last redraw.
#[derive(Debug, Clone, Copy, PartialEq, Eq, Structural)]
pub struct DisplayBatch {
    pub handled: usize,
}

impl DisplayBatch {
    /// No message handled yet.
    pub fn new() -> (r: Self)
        ensures
            r.handled == 0,
    {
        DisplayBatch { handled: 0 }
    }

    /// A message arrived and was handled: tells whether to redraw now, which is
    /// when the batch is full; a redraw starts a new batch.
    pub fn after_message(&mut self) -> (redraw: bool)
        requires
            old(self).handled < usize::MAX,
        ensures
            redraw == (old(self).handled + 1 >= MAX_BATCH_SIZE),
            final(self).handled == if redraw {
                0
            } else {
                old(self).handled + 1
            },
    {
        self.handled = self.handled + 1;
        if self.handled >= MAX_BATCH_SIZE {
            self.handled = 0;
            true
        } else {
            false
        }
    }

    /// Whether pending messages may still be taken without waiting: while the
    /// batch is not full.
    pub fn can_take_pending(&self) -> (r: bool)
        ensures
            r == (self.handled < MAX_BATCH_SIZE),
    {
        self.handled < MAX_BATCH_SIZE
    }

    /// A pending message was taken and handled, without a redraw.
    pub fn after_pending_message(&mut self)
        requires
            old(self).handled < usize::MAX,
        ensures
            final(self).handled == old(self).handled + 1,
    {
        self.handled = self.handled + 1;
    }

    /// No message came in time: tells whether to redraw, which is when messages
    /// were handled since the last redraw; a redraw starts a new batch.
    pub fn after_timeout(&mut self) -> (redraw: bool)
        ensures
            redraw == (old(self).handled > 0),
            final(self).handled == 0,
    {
        let redraw = self.handled > 0;
        self.handled = 0;
        redraw
    }
}

/// The batch never overflows: starting within the batch size, every step of the
/// loop keeps it within.
pub proof fn law_batch_bounded(handled: usize)
    requires
        handled <= MAX_BATCH_SIZE,
    ensures
        (if handled + 1 >= MAX_BATCH_SIZE {
            0
        } else {
            handled + 1
        }) < MAX_BATCH_SIZE,
        handled < MAX_BATCH_SIZE ==> handled + 1 <= MAX_BATCH_SIZE,
{
}

} // verus!
