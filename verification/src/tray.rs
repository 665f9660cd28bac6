//! The tray controller: the lifecycle of the one tray icon of the process
//! and the tooltip that it carries.
//!
//! The controller decides; the caller, which owns the widget, carries out.
//! A widget is built once and from then on only updated: no transition
//! leads back to an earlier state. Its destruction is no state of the
//! controller: the widget lives as long as the process, and goes with it.

use vstd::prelude::*;
use crate::tooltip::DEFAULT_TOOLTIP;

verus! {

/// Where the tray icon stands in its life.
#[derive(Debug, Clone, Copy, PartialEq, Eq)]
pub enum Lifecycle {
    /// No tray resource exists yet.
    Uninitialized,
    /// The widget has been constructed with its default tooltip.
    Built,
    /// The widget takes tooltip updates.
    Active,
}

/// The controller as contracts see it: where the widget stands in its
/// life and, once it exists, the tooltip that it carries.
pub enum TrayView {
    /// No tray resource exists yet.
    Uninitialized,
    /// The widget has been constructed and carries `tooltip`.
    Built { tooltip: Seq<char> },
    /// The widget takes updates and carries `tooltip`.
    Active { tooltip: Seq<char> },
}

impl TrayView {
    /// The build transition: leaves `Uninitialized` once and changes nothing afterwards.
    pub open spec fn build(self) -> TrayView {
        match self {
            TrayView::Uninitialized => TrayView::Built { tooltip: DEFAULT_TOOLTIP@ },
            _ => self,
        }
    }

    /// A built widget starts taking updates.
    pub open spec fn activate(self) -> TrayView {
        match self {
            TrayView::Built { tooltip } => TrayView::Active { tooltip },
            _ => self,
        }
    }

    /// An active widget takes `text` in place of whatever it carried; any
    /// other state lets the text pass.
    pub open spec fn update(self, text: Seq<char>) -> TrayView {
        match self {
            TrayView::Active { .. } => TrayView::Active { tooltip: text },
            _ => self,
        }
    }

    /// The tooltip on the widget, if a widget exists.
    pub open spec fn tooltip(self) -> Option<Seq<char>> {
        match self {
            TrayView::Uninitialized => None,
            TrayView::Built { tooltip } => Some(tooltip),
            TrayView::Active { tooltip } => Some(tooltip),
        }
    }

    /// Where the widget stands in its life.
    pub open spec fn lifecycle(self) -> Lifecycle {
        match self {
            TrayView::Uninitialized => Lifecycle::Uninitialized,
            TrayView::Built { .. } => Lifecycle::Built,
            TrayView::Active { .. } => Lifecycle::Active,
        }
    }
}

/// Tracks the tray icon's lifecycle and the tooltip last given to it.
pub struct TrayController {
    lifecycle: Lifecycle,
    tooltip: String,
}

impl View for TrayController {
    type V = TrayView;

    closed spec fn view(&self) -> TrayView {
        match self.lifecycle {
            Lifecycle::Uninitialized => TrayView::Uninitialized,
            Lifecycle::Built => TrayView::Built { tooltip: self.tooltip@ },
            Lifecycle::Active => TrayView::Active { tooltip: self.tooltip@ },
        }
    }
}

impl TrayController {
    /// A controller with no widget yet.
    pub fn new() -> (controller: TrayController)
        ensures
            controller@ == TrayView::Uninitialized,
    {
        TrayController { lifecycle: Lifecycle::Uninitialized, tooltip: String::new() }
    }

    /// Where the widget stands in its life.
    pub fn lifecycle(&self) -> (lifecycle: Lifecycle)
        ensures
            lifecycle == self@.lifecycle(),
    {
        self.lifecycle
    }

    /// The tooltip on the widget, if a widget exists.
    pub fn tooltip(&self) -> (tooltip: Option<String>)
        ensures
            tooltip is Some <==> self@.tooltip() is Some,
            tooltip is Some ==> self@.tooltip() == Some(tooltip->Some_0@),
    {
        match self.lifecycle {
            Lifecycle::Uninitialized => None,
            _ => Some(self.tooltip.clone()),
        }
    }

    /// The build transition. Returns whether the caller has to construct the
    /// widget now, with `DEFAULT_TOOLTIP` on it: true on the first call and
    /// never again.
    pub fn build(&mut self) -> (construct: bool)
        ensures
            construct == (old(self)@ is Uninitialized),
            final(self)@ == old(self)@.build(),
    {
        match self.lifecycle {
            Lifecycle::Uninitialized => {
                self.tooltip = DEFAULT_TOOLTIP.to_owned();
                self.lifecycle = Lifecycle::Built;
                true
            },
            _ => false,
        }
    }

    /// Lets a built widget take updates. Returns whether it now does.
    pub fn activate(&mut self) -> (active: bool)
        ensures
            active == (final(self)@ is Active),
            final(self)@ == old(self)@.activate(),
    {
        match self.lifecycle {
            Lifecycle::Uninitialized => false,
            Lifecycle::Built => {
                self.lifecycle = Lifecycle::Active;
                true
            },
            Lifecycle::Active => true,
        }
    }

    /// Replaces the tooltip of an active widget by `new_tooltip`. Returns
    /// whether the caller has to set the text on the widget; while no active
    /// widget exists the text is dropped.
    pub fn update_tooltip(&mut self, new_tooltip: &str) -> (applied: bool)
        ensures
            applied == (old(self)@ is Active),
            final(self)@ == old(self)@.update(new_tooltip@),
    {
        match self.lifecycle {
            Lifecycle::Active => {
                self.tooltip = new_tooltip.to_owned();
                true
            },
            _ => false,
        }
    }
}

} // verus!
