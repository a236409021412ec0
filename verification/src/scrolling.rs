//! The timer itself: the caller-facing proxy that enqueues messages, and the
//! worker that drains them in order, waits out each event's grace period, and
//! notifies the compositor.

use std::sync::mpsc::Receiver;
use std::sync::mpsc::Sender;

use crate::channel::recv_msg;
use crate::channel::send_msg;
use crate::clock::DeadlineClock;
use crate::compositor::CompositorProxy;
use crate::deadline::clamped_deadline;
use crate::deadline::compute_wait_ns;
use crate::messages::timeouts_emitted;
use crate::messages::ToScrollingTimerMsg;
use vstd::prelude::*;

verus! {

/// The producer-facing handle of the timer: any number of caller threads may
/// use it to report processed scroll events or to request shutdown. Both
/// operations only enqueue a message and never block, fail, or panic, even
/// after the worker has terminated.
pub struct ScrollingTimerProxy {
    sender: Sender<ToScrollingTimerMsg>,
}

impl ScrollingTimerProxy {
    /// A proxy that enqueues onto `sender`; the worker owns the matching
    /// receiving end.
    pub fn new(sender: Sender<ToScrollingTimerMsg>) -> ScrollingTimerProxy {
        ScrollingTimerProxy { sender }
    }

    /// Reports that the scroll event begun at `timestamp` has finished being
    /// processed, so a timeout deadline should now be tracked for it. The
    /// enqueue is the whole effect; after the worker has terminated it is
    /// silently discarded.
    pub fn scroll_event_processed(&mut self, timestamp: u64)
        ensures
            *final(self) == *old(self),
    {
        send_msg(&self.sender, ToScrollingTimerMsg::ScrollEventProcessedMsg(timestamp));
    }

    /// Requests orderly termination of the worker. Idempotent and
    /// fire-and-forget: it does not wait for the worker to finish, and calling
    /// it again, or after the worker has terminated, has no further effect.
    pub fn shutdown(&mut self)
        ensures
            *final(self) == *old(self),
    {
        send_msg(&self.sender, ToScrollingTimerMsg::ExitMsg);
    }
}

/// The timer worker: a single sequential loop that owns the receiving end of
/// the channel, the clock, and the compositor proxy, and turns each reported
/// scroll event into one timeout notification once its grace period has
/// elapsed.
pub struct ScrollingTimer<C: CompositorProxy, K: DeadlineClock> {
    /// The compositor-side handle, owned exclusively for the worker's
    /// lifetime.
    pub compositor_proxy: C,
    /// The monotonic clock used to read the time and wait out deadlines.
    pub clock: K,
    /// The grace period in nanoseconds granted to painting before a timeout
    /// is emitted.
    pub grace_period: u64,
    /// The receiving end of the message channel, drained only by this
    /// worker.
    pub receiver: Receiver<ToScrollingTimerMsg>,
}

impl<C: CompositorProxy, K: DeadlineClock> ScrollingTimer<C, K> {
    /// A worker that drains `receiver`, granting each scroll event
    /// `grace_period` nanoseconds before notifying `compositor_proxy`.
    pub fn new(
        compositor_proxy: C,
        clock: K,
        receiver: Receiver<ToScrollingTimerMsg>,
        grace_period: u64,
    ) -> (r: ScrollingTimer<C, K>)
        ensures
            r.compositor_proxy == compositor_proxy,
            r.clock == clock,
            r.grace_period == grace_period,
    {
        ScrollingTimer { compositor_proxy, clock, grace_period, receiver }
    }

    /// Handles one processed scroll event: waits until its deadline (not at
    /// all if the deadline has already passed), then notifies the compositor,
    /// carrying the event's original timestamp.
    pub fn process_scroll_event(&mut self, timestamp: u64)
        ensures
            final(self).compositor_proxy.sent() == old(self).compositor_proxy.sent().push(
                timestamp,
            ),
            final(self).clock.time_ns() >= clamped_deadline(timestamp, old(self).grace_period),
            final(self).clock.time_ns() >= old(self).clock.time_ns(),
            final(self).grace_period == old(self).grace_period,
            final(self).receiver == old(self).receiver,
    {
        let now = self.clock.now();
        let wait = compute_wait_ns(timestamp, self.grace_period, now);
        self.clock.sleep_ns(wait);
        self.compositor_proxy.send_scroll_timeout(timestamp);
    }

    /// One iteration of the worker loop: blocks until the next message is
    /// available, processes it to completion, and reports whether the worker
    /// should terminate. A scroll event appends exactly its timestamp's
    /// timeout, delivered no earlier than its deadline; an exit request, or a
    /// channel closed because every proxy is gone, delivers nothing and ends
    /// the loop — the two are treated identically.
    pub fn run_step(&mut self) -> (terminate: bool)
        ensures
            final(self).grace_period == old(self).grace_period,
            final(self).receiver == old(self).receiver,
            final(self).clock.time_ns() >= old(self).clock.time_ns(),
            terminate ==> *final(self) == *old(self),
            !terminate ==> exists|timestamp: u64|
                final(self).compositor_proxy.sent() == old(self).compositor_proxy.sent().push(
                    timestamp,
                ) && final(self).clock.time_ns() >= clamped_deadline(
                    timestamp,
                    old(self).grace_period,
                ),
    {
        match recv_msg(&self.receiver) {
            Some(ToScrollingTimerMsg::ScrollEventProcessedMsg(timestamp)) => {
                self.process_scroll_event(timestamp);
                false
            },
            Some(ToScrollingTimerMsg::ExitMsg) => true,
            None => true,
        }
    }

    /// Processes an already-received backlog of messages exactly as the
    /// worker loop does: strictly in arrival order, each scroll event waited
    /// out and notified before the next message is looked at, stopping at the
    /// first exit request and reading nothing beyond it. The notifications
    /// delivered are exactly those the message model emits for the backlog.
    pub fn process_backlog(&mut self, msgs: &Vec<ToScrollingTimerMsg>)
        ensures
            final(self).grace_period == old(self).grace_period,
            final(self).receiver == old(self).receiver,
            final(self).compositor_proxy.sent() == old(self).compositor_proxy.sent()
                + timeouts_emitted(msgs@),
    {
        let ghost all = msgs@;
        let mut i: usize = 0;
        proof {
            assert(all.subrange(0, all.len() as int) =~= all);
        }
        while i < msgs.len()
            invariant
                i <= msgs.len(),
                msgs@ == all,
                self.grace_period == old(self).grace_period,
                self.receiver == old(self).receiver,
                old(self).compositor_proxy.sent() + timeouts_emitted(all)
                    == self.compositor_proxy.sent() + timeouts_emitted(
                    all.subrange(i as int, all.len() as int),
                ),
            decreases msgs.len() - i,
        {
            let ghost rest = all.subrange(i as int, all.len() as int);
            match msgs[i] {
                ToScrollingTimerMsg::ScrollEventProcessedMsg(timestamp) => {
                    proof {
                        assert(rest.first() == all[i as int]);
                        assert(rest.drop_first() =~= all.subrange(i + 1, all.len() as int));
                        assert(timeouts_emitted(rest) =~= seq![timestamp] + timeouts_emitted(
                            rest.drop_first(),
                        ));
                    }
                    self.process_scroll_event(timestamp);
                    proof {
                        assert(self.compositor_proxy.sent() + timeouts_emitted(rest.drop_first())
                            =~= old(self).compositor_proxy.sent() + timeouts_emitted(all));
                    }
                },
                ToScrollingTimerMsg::ExitMsg => {
                    proof {
                        assert(rest.first() is ExitMsg);
                        assert(timeouts_emitted(rest) =~= Seq::<u64>::empty());
                        assert(self.compositor_proxy.sent() =~= old(self).compositor_proxy.sent()
                            + timeouts_emitted(all));
                    }
                    return ;
                },
            }
            i = i + 1;
        }
        proof {
            assert(all.subrange(all.len() as int, all.len() as int)
                =~= Seq::<ToScrollingTimerMsg>::empty());
            assert(timeouts_emitted(Seq::<ToScrollingTimerMsg>::empty()) =~= Seq::<u64>::empty());
            assert(self.compositor_proxy.sent() =~= old(self).compositor_proxy.sent()
                + timeouts_emitted(all));
        }
    }
}

} // verus!
