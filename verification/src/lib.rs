//! A timer that gives the painting task a little time to catch up when the
//! user scrolls, then tells the compositor to composite anyway.
//!
//! Callers hold a [`ScrollingTimerProxy`] and report each processed scroll
//! event; a [`ScrollingTimer`] drains those reports in arrival order, waits
//! out the remainder of a fixed grace period for each, and then emits a
//! timeout notification carrying the event's original timestamp.

pub mod channel;
pub mod clock;
pub mod compositor;
pub mod deadline;
pub mod messages;
pub mod scrolling;
