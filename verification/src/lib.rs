//! The verified core of a tray applet that shows the battery's power draw
//! as the tooltip of a tray icon.
//!
//! Two loops make up the applet. The sampling loop asks the platform for
//! its power sources at a fixed pace and publishes what it finds as tooltip
//! text; the UI loop owns the tray icon and puts the latest text on it.
//! Between them lies a queue. This library holds what the two loops decide
//! and proves it; reading the platform, sleeping and driving the widget are
//! left to the program around it.
//!
//! - `watts`: the power draw as decimal text.
//! - `telemetry`: from an enumeration of power sources to a sample.
//! - `tooltip`: from a sample to its tooltip text, and what a well-formed
//!   tooltip is.
//! - `channel`: the queue between the two loops.
//! - `sampler`: one iteration of the sampling loop.
//! - `tray`: the lifecycle of the tray icon.
//! - `ui_loop`: one wake of the UI loop.
//! - `pipeline`: what holds of every run of the two loops together.

pub mod channel;
pub mod pipeline;
pub mod sampler;
pub mod telemetry;
pub mod tooltip;
pub mod tray;
pub mod ui_loop;
pub mod watts;
