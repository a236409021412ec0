//! The notification sink capability: the compositor-side handle that receives
//! scroll timeout events from the timer worker.

use vstd::prelude::*;

verus! {

/// The compositor's proxy: an opaque handle, owned exclusively by the timer
/// worker, that accepts scroll timeout notifications. `sent` is the sequence
/// of timestamps delivered so far, oldest first; a send is fire-and-forget
/// and appends exactly one timestamp.
pub trait CompositorProxy: Sized {
    /// The timestamps of the timeouts delivered to the compositor so far, in
    /// delivery order. The default stands only so that host-side sinks, which
    /// no contract is checked against, need not model their history; a sink
    /// the verifier reasons about overrides it.
    open spec fn sent(&self) -> Seq<u64> {
        Seq::empty()
    }

    /// Notifies the compositor that the scroll event processed at `timestamp`
    /// has timed out and the frame should be composited regardless.
    fn send_scroll_timeout(&mut self, timestamp: u64)
        ensures
            final(self).sent() == old(self).sent().push(timestamp),
    ;
}

/// A compositor proxy that only records what it is sent, in order. It lets
/// tests observe exactly which timeouts the worker emitted.
pub struct RecordingCompositorProxy {
    /// The timestamps received so far, oldest first.
    pub recorded: Vec<u64>,
}

impl RecordingCompositorProxy {
    /// A recording proxy that has received nothing yet.
    pub fn new() -> (r: RecordingCompositorProxy)
        ensures
            r.sent() == Seq::<u64>::empty(),
    {
        RecordingCompositorProxy { recorded: Vec::new() }
    }
}

impl CompositorProxy for RecordingCompositorProxy {
    open spec fn sent(&self) -> Seq<u64> {
        self.recorded@
    }

    fn send_scroll_timeout(&mut self, timestamp: u64) {
        self.recorded.push(timestamp);
    }
}

} // verus!
