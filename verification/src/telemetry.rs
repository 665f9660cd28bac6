//! The telemetry source adapter: from the outcome of one power-source
//! enumeration to a sample.
//!
//! Nothing here touches the platform. The caller enumerates the power
//! sources and hands the outcome over as plain values; the power draw of a
//! source travels as the decimal text of its value in watts, so that no
//! digit is lost or invented on the way to the tooltip.

use vstd::prelude::*;
use crate::watts::Watts;

verus! {

/// One power source as the platform reported it.
#[derive(Debug, PartialEq, Eq)]
pub struct PowerSource {
    /// Instantaneous power draw.
    pub watts: Watts,
}

/// Why the platform could not answer a query.
#[derive(Debug, PartialEq, Eq)]
pub struct QueryError {
    /// The platform's own words, kept for the log.
    pub description: String,
}

/// The outcome of one enumeration: the platform either refuses the query as
/// a whole, or lists its power sources, each of which may in turn be unreadable.
pub type Enumeration = Result<Vec<Result<PowerSource, QueryError>>, QueryError>;

/// One observation of the machine's battery power draw.
#[derive(Debug, PartialEq, Eq)]
pub enum TelemetrySample {
    /// A power source was found; `watts` is its instantaneous draw.
    Reading { watts: Watts },
    /// The enumeration succeeded and reported no power source.
    Absent,
    /// The platform query failed.
    QueryFailed,
}

/// The first-found policy: only the first listed source counts. A refused
/// enumeration and an unreadable first source are both errors; an empty
/// list is a valid answer.
pub open spec fn first_found(sources: Enumeration) -> Result<Option<PowerSource>, QueryError> {
    match sources {
        Err(e) => Err(e),
        Ok(listed) => if listed@.len() == 0 {
            Ok(None)
        } else {
            match listed@[0] {
                Ok(source) => Ok(Some(source)),
                Err(e) => Err(e),
            }
        },
    }
}

/// The sample that a query outcome amounts to.
pub open spec fn sample_of(info: Result<Option<PowerSource>, QueryError>) -> TelemetrySample {
    match info {
        Ok(Some(source)) => TelemetrySample::Reading { watts: source.watts },
        Ok(None) => TelemetrySample::Absent,
        Err(_) => TelemetrySample::QueryFailed,
    }
}

/// Picks the battery that the applet reports on out of an enumeration.
pub fn get_battery_info(sources: Enumeration) -> (info: Result<Option<PowerSource>, QueryError>)
    ensures
        info == first_found(sources),
{
    match sources {
        Err(e) => Err(e),
        Ok(mut listed) => {
            if listed.len() == 0 {
                Ok(None)
            } else {
                match listed.remove(0) {
                    Ok(source) => Ok(Some(source)),
                    Err(e) => Err(e),
                }
            }
        },
    }
}

impl TelemetrySample {
    /// Whether this sample leads to a tooltip being published.
    pub open spec fn publishes(self) -> bool {
        !(self is QueryFailed)
    }

    /// Whether the power draw of this sample, if it has one, is decimal
    /// text. Every sample that executable code holds is well formed.
    pub open spec fn well_formed(self) -> bool {
        match self {
            TelemetrySample::Reading { watts } => watts.well_formed(),
            _ => true,
        }
    }

    /// Classifies a query outcome.
    pub fn from_query(info: Result<Option<PowerSource>, QueryError>) -> (sample: TelemetrySample)
        ensures
            sample == sample_of(info),
            sample.well_formed(),
    {
        match info {
            Ok(Some(source)) => {
                proof {
                    use_type_invariant(&source.watts);
                }
                TelemetrySample::Reading { watts: source.watts }
            },
            Ok(None) => TelemetrySample::Absent,
            Err(_) => TelemetrySample::QueryFailed,
        }
    }
}

/// Takes one sample from an enumeration of the platform's power sources.
pub fn sample(sources: Enumeration) -> (taken: TelemetrySample)
    ensures
        taken == sample_of(first_found(sources)),
        taken.well_formed(),
{
    TelemetrySample::from_query(get_battery_info(sources))
}

} // verus!
