//! The messages that caller threads send to the timer worker, and a model of
//! which timeouts a given arrival order of messages makes the worker emit.

use vstd::prelude::*;

verus! {

/// A message sent from a `ScrollingTimerProxy` to the `ScrollingTimer`.
#[derive(Clone, Copy, Debug)]
pub enum ToScrollingTimerMsg {
    /// Request orderly termination of the worker.
    ExitMsg,
    /// A scroll event finished being handled at the given timestamp, in
    /// nanoseconds on the monotonic clock; a deadline is now tracked for it.
    ScrollEventProcessedMsg(u64),
}

/// The timestamps whose timeouts the worker emits when it dequeues `msgs` in
/// order: one per scroll event, in arrival order, up to the first exit
/// request, after which nothing further is read.
pub open spec fn timeouts_emitted(msgs: Seq<ToScrollingTimerMsg>) -> Seq<u64>
    decreases msgs.len(),
{
    if msgs.len() == 0 {
        Seq::empty()
    } else {
        match msgs.first() {
            ToScrollingTimerMsg::ExitMsg => Seq::empty(),
            ToScrollingTimerMsg::ScrollEventProcessedMsg(timestamp) => seq![timestamp]
                + timeouts_emitted(msgs.drop_first()),
        }
    }
}

/// Whether a message reports a processed scroll event.
pub open spec fn is_scroll_event(msg: ToScrollingTimerMsg) -> bool {
    msg is ScrollEventProcessedMsg
}

/// The timestamp a scroll-event message carries.
pub open spec fn msg_timestamp(msg: ToScrollingTimerMsg) -> u64
    recommends
        is_scroll_event(msg),
{
    match msg {
        ToScrollingTimerMsg::ExitMsg => 0,
        ToScrollingTimerMsg::ScrollEventProcessedMsg(timestamp) => timestamp,
    }
}

/// With no exit request among them, the worker emits exactly one timeout per
/// scroll event, in the same relative order as the events were enqueued.
pub proof fn lemma_all_scroll_events_emitted_in_order(msgs: Seq<ToScrollingTimerMsg>)
    requires
        forall|i: int| 0 <= i < msgs.len() ==> is_scroll_event(#[trigger] msgs[i]),
    ensures
        timeouts_emitted(msgs) == msgs.map_values(|msg: ToScrollingTimerMsg| msg_timestamp(msg)),
    decreases msgs.len(),
{
    let mapped = msgs.map_values(|msg: ToScrollingTimerMsg| msg_timestamp(msg));
    if msgs.len() == 0 {
        assert(timeouts_emitted(msgs) =~= mapped);
    } else {
        lemma_all_scroll_events_emitted_in_order(msgs.drop_first());
        assert(timeouts_emitted(msgs) =~= mapped);
    }
}

/// An exit request at the head of the queue terminates the worker before any
/// further message is read: whatever is queued behind it, nothing is emitted.
/// In particular, shutdown with no pending scroll events emits no timeout.
pub proof fn lemma_exit_first_discards_rest(rest: Seq<ToScrollingTimerMsg>)
    ensures
        timeouts_emitted(seq![ToScrollingTimerMsg::ExitMsg] + rest) == Seq::<u64>::empty(),
{
    let msgs = seq![ToScrollingTimerMsg::ExitMsg] + rest;
    assert(msgs.first() is ExitMsg);
}

/// A scroll event enqueued before an exit request is still fully processed:
/// its timeout is emitted, and nothing queued behind the exit request is.
/// Together with `lemma_exit_first_discards_rest`, strict arrival order alone
/// determines whether a scroll event racing a shutdown gets its timeout.
pub proof fn lemma_scroll_before_exit_still_processed(
    timestamp: u64,
    rest: Seq<ToScrollingTimerMsg>,
)
    ensures
        timeouts_emitted(
            seq![
                ToScrollingTimerMsg::ScrollEventProcessedMsg(timestamp),
                ToScrollingTimerMsg::ExitMsg,
            ] + rest,
        ) == seq![timestamp],
{
    let msgs = seq![
        ToScrollingTimerMsg::ScrollEventProcessedMsg(timestamp),
        ToScrollingTimerMsg::ExitMsg,
    ] + rest;
    let tail = msgs.drop_first();
    assert(msgs.first() == ToScrollingTimerMsg::ScrollEventProcessedMsg(timestamp));
    assert(tail.first() is ExitMsg);
    assert(timeouts_emitted(tail) =~= Seq::<u64>::empty());
    assert(timeouts_emitted(msgs) =~= seq![timestamp]);
}

} // verus!
