//! Tooltip texts: the three forms that the tray icon ever shows, and the
//! text that each sample stands for.

use vstd::prelude::*;
use vstd::string::*;
use crate::telemetry::TelemetrySample;
use crate::watts::{is_decimal, is_decimal_text, same_text};

verus! {

/// The tooltip that a freshly built tray icon carries.
pub const DEFAULT_TOOLTIP: &'static str = "winit - awesome windowing lib";

/// The tooltip shown while the machine reports no battery.
pub const ABSENT_TOOLTIP: &'static str = "No battery found";

/// What precedes the power draw in the tooltip of a reading.
pub const READING_PREFIX: &'static str = "Battery: ";

/// What follows the power draw in the tooltip of a reading: the unit, fixed to watts.
pub const READING_SUFFIX: &'static str = " W";

/// The tooltip of a reading of `watts`.
pub open spec fn reading_text(watts: Seq<char>) -> Seq<char> {
    READING_PREFIX@ + watts + READING_SUFFIX@
}

/// The tooltip text that a sample publishes, if it publishes any.
pub open spec fn tooltip_of(sample: TelemetrySample) -> Option<Seq<char>> {
    match sample {
        TelemetrySample::Reading { watts } => Some(reading_text(watts@)),
        TelemetrySample::Absent => Some(ABSENT_TOOLTIP@),
        TelemetrySample::QueryFailed => None,
    }
}

/// A text is well formed when it is one of the three forms in whole: the
/// default tooltip, the no-battery tooltip, or the reading of a power draw.
pub open spec fn well_formed_tooltip(text: Seq<char>) -> bool {
    ||| text == DEFAULT_TOOLTIP@
    ||| text == ABSENT_TOOLTIP@
    ||| exists|watts: Seq<char>| is_decimal(watts) && text == #[trigger] reading_text(watts)
}

/// Formats the tooltip text of a sample. A failed query has none.
pub fn tooltip_text(sample: &TelemetrySample) -> (text: Option<String>)
    ensures
        text is Some <==> sample.publishes(),
        (match text {
            Some(t) => tooltip_of(*sample) == Some(t@) && well_formed_tooltip(t@),
            None => tooltip_of(*sample) is None,
        }),
{
    match sample {
        TelemetrySample::Reading { watts } => {
            let mut text = READING_PREFIX.to_owned();
            text.append(watts.as_str());
            text.append(READING_SUFFIX);
            Some(text)
        },
        TelemetrySample::Absent => Some(ABSENT_TOOLTIP.to_owned()),
        TelemetrySample::QueryFailed => None,
    }
}

/// Tells whether `text` is one of the three forms in whole.
pub fn is_well_formed_tooltip(text: &str) -> (well_formed: bool)
    ensures
        well_formed == well_formed_tooltip(text@),
{
    if same_text(text, DEFAULT_TOOLTIP) || same_text(text, ABSENT_TOOLTIP) {
        return true;
    }
    let length: usize = text.unicode_len();
    let head_length: usize = READING_PREFIX.unicode_len();
    let tail_length: usize = READING_SUFFIX.unicode_len();
    if length < head_length || length - head_length < tail_length {
        assert forall|watts: Seq<char>| text@ != #[trigger] reading_text(watts) by {
            assert(reading_text(watts).len() == head_length + watts.len() + tail_length);
        }
        return false;
    }
    let tail_start: usize = length - tail_length;
    let head = text.substring_char(0, head_length);
    let middle = text.substring_char(head_length, tail_start);
    let tail = text.substring_char(tail_start, length);
    let reading = same_text(head, READING_PREFIX) && same_text(tail, READING_SUFFIX)
        && is_decimal_text(middle);
    proof {
        if reading {
            assert(text@ =~= reading_text(middle@));
        } else {
            assert forall|watts: Seq<char>| text@ == #[trigger] reading_text(watts) implies !is_decimal(
                watts,
            ) by {
                assert(head@ =~= READING_PREFIX@);
                assert(tail@ =~= READING_SUFFIX@);
                assert(middle@ =~= watts);
            }
        }
    }
    reading
}

} // verus!
