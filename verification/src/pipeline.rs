//! The pipeline as a whole: samples go in at one end, the tooltip on the
//! widget changes at the other, and the channel lies between the two.
//!
//! The two ends run on their own cadences, so a run of the pipeline is any
//! interleaving of two kinds of steps: the sampling loop publishes a sample,
//! or the UI loop wakes. The theorems below hold of every such run. They
//! are stated over the same functions as the contracts of
//! `sampler::publish` and `ui_loop::on_wake`, which are the two steps.

use vstd::prelude::*;
use crate::channel::queue_after_poll;
use crate::sampler::queue_after_sample;
use crate::telemetry::TelemetrySample;
use crate::tooltip::{tooltip_of, well_formed_tooltip};
use crate::tray::TrayView;
use crate::ui_loop::{builds_on, tray_after_event, tray_after_wake, LoopEvent};

verus! {

/// The state that the two loops share or own between them.
pub struct Pipeline {
    /// The messages pending on the channel, in send order.
    pub queue: Seq<Seq<char>>,
    /// Whether the consumer end of the channel is in place.
    pub connected: bool,
    /// The tray controller.
    pub tray: TrayView,
}

/// One step of either loop.
pub enum Step {
    /// The sampling loop publishes `sample`.
    Sample { sample: TelemetrySample },
    /// The UI loop wakes on `event`.
    Wake { event: LoopEvent },
}

impl Step {
    /// Whether this step is a wake on an initialization event.
    pub open spec fn is_init(self) -> bool {
        self == (Step::Wake { event: LoopEvent::Init })
    }
}

/// Whether every sample among `steps` is well formed, as every sample that
/// executable code holds is.
pub open spec fn samples_well_formed(steps: Seq<Step>) -> bool {
    forall|i: int|
        0 <= i < steps.len() ==> match #[trigger] steps[i] {
            Step::Sample { sample } => sample.well_formed(),
            Step::Wake { .. } => true,
        }
}

/// Whether some step among `steps` is a wake on an initialization event.
pub open spec fn has_init(steps: Seq<Step>) -> bool {
    exists|i: int| 0 <= i < steps.len() && (#[trigger] steps[i]).is_init()
}

/// The texts that the samples among `steps` publish, in order.
pub open spec fn published(steps: Seq<Step>) -> Seq<Seq<char>>
    decreases steps.len(),
{
    if steps.len() == 0 {
        Seq::empty()
    } else {
        let earlier = published(steps.drop_last());
        match steps.last() {
            Step::Sample { sample } => match tooltip_of(sample) {
                Some(text) => earlier.push(text),
                None => earlier,
            },
            Step::Wake { .. } => earlier,
        }
    }
}

/// The text of the last sample among `rounds` that publishes one.
pub open spec fn last_published(rounds: Seq<(TelemetrySample, LoopEvent)>) -> Option<Seq<char>>
    decreases rounds.len(),
{
    if rounds.len() == 0 {
        None
    } else {
        match tooltip_of(rounds.last().0) {
            Some(text) => Some(text),
            None => last_published(rounds.drop_last()),
        }
    }
}

impl Pipeline {
    /// The pipeline at process start: nothing pending, no widget.
    pub open spec fn fresh() -> Pipeline {
        Pipeline { queue: Seq::empty(), connected: true, tray: TrayView::Uninitialized }
    }

    /// The pipeline after one step.
    pub open spec fn step(self, step: Step) -> Pipeline {
        match step {
            Step::Sample { sample } => Pipeline {
                queue: queue_after_sample(self.queue, self.connected, sample),
                ..self
            },
            Step::Wake { event } => Pipeline {
                queue: queue_after_poll(self.queue),
                tray: tray_after_wake(self.tray, self.queue, event),
                ..self
            },
        }
    }

    /// The pipeline after `steps`, taken in order.
    pub open spec fn run(self, steps: Seq<Step>) -> Pipeline
        decreases steps.len(),
    {
        if steps.len() == 0 {
            self
        } else {
            self.run(steps.drop_last()).step(steps.last())
        }
    }

    /// How often the caller is told to construct the widget in the course of `steps`.
    pub open spec fn builds(self, steps: Seq<Step>) -> nat
        decreases steps.len(),
    {
        if steps.len() == 0 {
            0
        } else {
            let earlier = self.builds(steps.drop_last());
            match steps.last() {
                Step::Wake { event } => if builds_on(self.run(steps.drop_last()).tray, event) {
                    earlier + 1
                } else {
                    earlier
                },
                Step::Sample { .. } => earlier,
            }
        }
    }

    /// The pipeline after the two loops have run in lockstep: in each round
    /// one sample is published and the UI loop then wakes once.
    pub open spec fn rounds(self, rounds: Seq<(TelemetrySample, LoopEvent)>) -> Pipeline
        decreases rounds.len(),
    {
        if rounds.len() == 0 {
            self
        } else {
            self.rounds(rounds.drop_last()).step(Step::Sample { sample: rounds.last().0 }).step(
                Step::Wake { event: rounds.last().1 },
            )
        }
    }

    /// Every pending message and the tooltip on the widget, if there is a
    /// widget, are well formed.
    pub open spec fn well_formed(self) -> bool {
        &&& forall|i: int| 0 <= i < self.queue.len() ==> well_formed_tooltip(#[trigger] self.queue[i])
        &&& match self.tray.tooltip() {
            Some(text) => well_formed_tooltip(text),
            None => true,
        }
    }
}

/// A failed query leaves no trace: nothing is sent, so nothing that the
/// widget shows can be overwritten on its account.
pub proof fn lemma_failed_query_leaves_no_trace(pipeline: Pipeline)
    ensures
        pipeline.step(Step::Sample { sample: TelemetrySample::QueryFailed }) == pipeline,
{
}

/// How many of the texts published in the course of `steps` the polls have
/// taken off the channel.
pub open spec fn delivered(start: Pipeline, steps: Seq<Step>) -> int {
    published(steps).len() - start.run(steps).queue.len()
}

/// The widget shows the latest delivered text. Let the channel be connected
/// and empty and the widget active at the start. Then after any run, if the
/// polls have so far taken `k` of the texts that were published, the channel
/// holds the rest in order, and the widget shows the `k`-th of them, or
/// still what it showed at the start if `k` is zero.
pub proof fn lemma_shows_latest_delivered(start: Pipeline, steps: Seq<Step>)
    requires
        start.connected,
        start.queue.len() == 0,
        start.tray is Active,
    ensures
        ({
            let end = start.run(steps);
            let sent = published(steps);
            let k: int = delivered(start, steps);
            &&& end.connected
            &&& 0 <= k <= sent.len()
            &&& end.queue == sent.skip(k)
            &&& end.tray == if k == 0 {
                start.tray
            } else {
                TrayView::Active { tooltip: sent[k - 1] }
            }
        }),
    decreases steps.len(),
{
    if steps.len() > 0 {
        lemma_shows_latest_delivered(start, steps.drop_last());
    }
}

/// The widget never goes back to an older text. On a connected channel the
/// number of published texts that the polls have taken only grows as a run
/// goes on, so by the theorem above the text on the widget only moves
/// forward through what was published.
pub proof fn lemma_delivery_only_advances(start: Pipeline, steps: Seq<Step>, more: Seq<Step>)
    requires
        start.connected,
    ensures
        start.run(steps + more).connected,
        delivered(start, steps) <= delivered(start, steps + more),
    decreases more.len(),
{
    if more.len() == 0 {
        lemma_run_keeps_the_connection(start, steps);
    } else {
        assert((steps + more).drop_last() =~= steps + more.drop_last());
        lemma_delivery_only_advances(start, steps, more.drop_last());
    }
}

/// Whether the consumer end is in place is the same before and after a run.
proof fn lemma_run_keeps_the_connection(start: Pipeline, steps: Seq<Step>)
    ensures
        start.run(steps).connected == start.connected,
    decreases steps.len(),
{
    if steps.len() > 0 {
        lemma_run_keeps_the_connection(start, steps.drop_last());
    }
}

/// Monotonic apply. Let the two loops run in lockstep from a connected,
/// empty channel, and let the widget be active at the start or the first
/// wake be an initialization. Then after any number of rounds the channel
/// is empty again and the widget shows the text of the last sample so far
/// that published one; if none has, it shows what it showed when it became
/// active.
pub proof fn lemma_monotonic_apply(start: Pipeline, rounds: Seq<(TelemetrySample, LoopEvent)>)
    requires
        start.connected,
        start.queue.len() == 0,
        start.tray is Active || (rounds.len() > 0 && rounds[0].1 is Init),
    ensures
        start.rounds(rounds).connected,
        start.rounds(rounds).queue.len() == 0,
        start.rounds(rounds).tray == (match last_published(rounds) {
            Some(text) => TrayView::Active { tooltip: text },
            None => tray_after_event(start.tray, LoopEvent::Init),
        }),
    decreases rounds.len(),
{
    if rounds.len() > 0 {
        let earlier = rounds.drop_last();
        if start.tray is Active || earlier.len() > 0 {
            lemma_monotonic_apply(start, earlier);
        }
    }
}

/// The widget is built once. In any run the caller is told to construct
/// the widget exactly once if no widget exists at the start and the UI loop
/// sees an initialization event, however many of them it sees, and never
/// otherwise. No run leads back: a widget exists at the end exactly if one
/// existed at the start or was built on the way, and an active widget stays
/// active.
pub proof fn lemma_built_exactly_once(start: Pipeline, steps: Seq<Step>)
    ensures
        start.builds(steps) == (if start.tray is Uninitialized && has_init(steps) {
            1nat
        } else {
            0nat
        }),
        start.run(steps).tray is Uninitialized <==> start.tray is Uninitialized && !has_init(steps),
        start.tray is Active ==> start.run(steps).tray is Active,
    decreases steps.len(),
{
    if steps.len() > 0 {
        let earlier = steps.drop_last();
        lemma_built_exactly_once(start, earlier);
        if has_init(steps) && !steps.last().is_init() {
            let i: int = choose|i: int| 0 <= i < steps.len() && (#[trigger] steps[i]).is_init();
            assert(earlier[i].is_init());
        }
    }
}

/// No run corrupts a text. If every pending message and the tooltip on the
/// widget are well formed, they still are after any run of well-formed
/// samples; and at process start they are.
pub proof fn lemma_tooltips_stay_well_formed(start: Pipeline, steps: Seq<Step>)
    requires
        start.well_formed(),
        samples_well_formed(steps),
    ensures
        start.run(steps).well_formed(),
        Pipeline::fresh().well_formed(),
    decreases steps.len(),
{
    if steps.len() > 0 {
        assert(samples_well_formed(steps.drop_last()));
        lemma_tooltips_stay_well_formed(start, steps.drop_last());
    }
}

} // verus!
