//! The UI event loop, one wake cycle at a time.
//!
//! The loop is single-threaded and owns the widget. On every wake the
//! caller names the event that woke it and gets a plan back: when to wake
//! next, whether to construct the widget, and which text to put on it.

use vstd::prelude::*;
use crate::channel::{polled, queue_after_poll, HandoffChannel};
use crate::tray::{TrayController, TrayView};

verus! {

/// The delay until the next wake-up, in milliseconds. A throttle, not an
/// idle wait: short enough to stay responsive, long enough to spare the CPU.
pub const WAKE_INTERVAL_MS: u64 = 64;

/// What woke the loop, as far as the tray controller cares.
#[derive(Debug, Clone, Copy, PartialEq, Eq)]
pub enum LoopEvent {
    /// The loop has just started.
    Init,
    /// Anything else: a timer, a window-manager event, input.
    Tick,
}

/// What the caller has to carry out after one wake.
#[derive(Debug, PartialEq, Eq)]
pub struct WakePlan {
    /// Wake again after this many milliseconds.
    pub wake_after_ms: u64,
    /// Construct the widget now, with the default tooltip on it.
    pub build: bool,
    /// Put this text on the widget, in place of what it carries.
    pub tooltip: Option<String>,
}

/// The controller after it has seen `event`: an `Init` builds the widget
/// if there is none and activates it; no other event changes anything.
pub open spec fn tray_after_event(tray: TrayView, event: LoopEvent) -> TrayView {
    match event {
        LoopEvent::Init => tray.build().activate(),
        LoopEvent::Tick => tray,
    }
}

/// The controller after it has been handed what one poll of the channel gave.
pub open spec fn tray_after_poll(tray: TrayView, received: Option<Seq<char>>) -> TrayView {
    match received {
        Some(text) => tray.update(text),
        None => tray,
    }
}

/// Whether a wake on `event` makes the caller construct the widget.
pub open spec fn builds_on(tray: TrayView, event: LoopEvent) -> bool {
    event is Init && tray is Uninitialized
}

/// The controller after one whole wake cycle.
pub open spec fn tray_after_wake(tray: TrayView, queue: Seq<Seq<char>>, event: LoopEvent) -> TrayView {
    tray_after_poll(tray_after_event(tray, event), polled(queue))
}

/// The text that one whole wake cycle puts on the widget, if any.
pub open spec fn applied_on_wake(tray: TrayView, queue: Seq<Seq<char>>, event: LoopEvent) -> Option<
    Seq<char>,
> {
    if tray_after_event(tray, event) is Active {
        polled(queue)
    } else {
        None
    }
}

/// One wake cycle: build on the first initialization event, then take at
/// most one pending message off the channel and apply it. A message that
/// arrives while no active widget exists is taken and dropped.
pub fn on_wake(tray: &mut TrayController, channel: &mut HandoffChannel, event: LoopEvent) -> (plan:
    WakePlan)
    ensures
        final(tray)@ == tray_after_wake(old(tray)@, old(channel)@, event),
        final(channel)@ == queue_after_poll(old(channel)@),
        final(channel).connected() == old(channel).connected(),
        plan.wake_after_ms == WAKE_INTERVAL_MS,
        plan.build == builds_on(old(tray)@, event),
        (match plan.tooltip {
            Some(text) => applied_on_wake(old(tray)@, old(channel)@, event) == Some(text@),
            None => applied_on_wake(old(tray)@, old(channel)@, event) is None,
        }),
{
    let build = match event {
        LoopEvent::Init => {
            let construct = tray.build();
            tray.activate();
            construct
        },
        LoopEvent::Tick => false,
    };
    let tooltip = match channel.try_receive() {
        Some(text) => {
            if tray.update_tooltip(text.as_str()) {
                Some(text)
            } else {
                None
            }
        },
        None => None,
    };
    WakePlan { wake_after_ms: WAKE_INTERVAL_MS, build, tooltip }
}

} // verus!
