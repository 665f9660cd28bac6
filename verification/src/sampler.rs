//! The sampling loop, one iteration at a time.
//!
//! The caller runs the loop on a thread of its own: it enumerates the power
//! sources, hands the outcome to `sampling_tick`, logs the failure that the
//! report may name, sleeps for the interval that the report gives, and
//! starts over. The fixed sleep is the only back-pressure there is: a
//! failed query is retried by the next iteration and by nothing else.

use vstd::prelude::*;
use crate::channel::{queue_after_send, HandoffChannel};
use crate::telemetry::{
    first_found, get_battery_info, sample_of, Enumeration, QueryError, TelemetrySample,
};
use crate::tooltip::{tooltip_of, tooltip_text};

verus! {

/// The pause between two samples, in milliseconds.
pub const SAMPLE_INTERVAL_MS: u64 = 1000;

/// What became of one sample.
#[derive(Debug, Clone, Copy, PartialEq, Eq)]
pub enum Publication {
    /// Its tooltip text was queued on the channel.
    Published,
    /// The query had failed: there was nothing to send.
    Skipped,
    /// The consumer end of the channel was gone and the text was dropped.
    Undelivered,
}

/// What one iteration of the sampling loop did and what the caller does next.
#[derive(Debug, PartialEq, Eq)]
pub struct TickReport {
    /// The sample that was taken.
    pub sample: TelemetrySample,
    /// What became of the sample.
    pub publication: Publication,
    /// The query failure to log, if the query failed.
    pub failure: Option<QueryError>,
    /// How long to sleep before the next iteration, in milliseconds.
    pub sleep_ms: u64,
}

/// The pending messages after `sample` has gone through `publish`.
pub open spec fn queue_after_sample(
    queue: Seq<Seq<char>>,
    connected: bool,
    sample: TelemetrySample,
) -> Seq<Seq<char>> {
    match tooltip_of(sample) {
        Some(text) => queue_after_send(queue, connected, text),
        None => queue,
    }
}

/// What `publish` reports for `sample`.
pub open spec fn publication_of(connected: bool, sample: TelemetrySample) -> Publication {
    if !sample.publishes() {
        Publication::Skipped
    } else if connected {
        Publication::Published
    } else {
        Publication::Undelivered
    }
}

/// Sends the tooltip text of `sample` down the channel. A failed query
/// sends nothing; a channel without consumer takes nothing.
pub fn publish(sample: &TelemetrySample, channel: &mut HandoffChannel) -> (publication: Publication)
    ensures
        publication == publication_of(old(channel).connected(), *sample),
        final(channel)@ == queue_after_sample(old(channel)@, old(channel).connected(), *sample),
        final(channel).connected() == old(channel).connected(),
{
    match tooltip_text(sample) {
        None => Publication::Skipped,
        Some(text) => match channel.send(text) {
            Ok(()) => Publication::Published,
            Err(_) => Publication::Undelivered,
        },
    }
}

/// One iteration of the sampling loop: takes a sample from `sources` under
/// the first-found policy and publishes it.
pub fn sampling_tick(sources: Enumeration, channel: &mut HandoffChannel) -> (report: TickReport)
    ensures
        report.sample == sample_of(first_found(sources)),
        report.sample.well_formed(),
        report.publication == publication_of(old(channel).connected(), report.sample),
        report.failure == (match first_found(sources) {
            Ok(_) => None,
            Err(e) => Some(e),
        }),
        report.sleep_ms == SAMPLE_INTERVAL_MS,
        final(channel)@ == queue_after_sample(
            old(channel)@,
            old(channel).connected(),
            report.sample,
        ),
        final(channel).connected() == old(channel).connected(),
{
    match get_battery_info(sources) {
        Ok(found) => {
            let sample = TelemetrySample::from_query(Ok(found));
            let publication = publish(&sample, channel);
            TickReport { sample, publication, failure: None, sleep_ms: SAMPLE_INTERVAL_MS }
        },
        Err(e) => TickReport {
            sample: TelemetrySample::QueryFailed,
            publication: Publication::Skipped,
            failure: Some(e),
            sleep_ms: SAMPLE_INTERVAL_MS,
        },
    }
}

} // verus!
