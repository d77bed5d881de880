//! The whole selection: chart panels in their order, and the operations
//! that switch a topic on and off.

use vstd::prelude::*;

use crate::laws::{
    law_add_lands_in_last_panel, law_add_to_nothing_makes_one_panel,
    law_remove_clears_every_panel, law_toggle_flips,
};
use crate::model::{
    holds, one_empty_panel, toggled, with_topic, without, without_topic, Selection,
};
use crate::panel::ChartPanel;

verus! {

/// The contents of a list of panels, each as the names it holds.
pub open spec fn panels_of(panels: Seq<ChartPanel>) -> Selection {
    panels.map_values(|panel: ChartPanel| panel@)
}

/// The topics a user has switched on, grouped into chart panels.
///
/// Switching goes by presence. `toggle_topic` removes a name that some panel
/// holds and appends one that no panel holds, so switching the same name
/// again and again never stacks up copies of it. `add_chart`, despite its
/// name, appends nothing: it replaces all panels by one empty panel.
#[derive(Debug)]
pub struct TimePlotData {
    chart_panels: Vec<ChartPanel>,
}

impl View for TimePlotData {
    type V = Selection;

    /// The panels in their order, each as the names it holds.
    closed spec fn view(&self) -> Selection {
        panels_of(self.chart_panels@)
    }
}

impl TimePlotData {
    /// A selection without panels.
    pub fn new() -> (plot: TimePlotData)
        ensures
            plot@ == Selection::empty(),
    {
        TimePlotData { chart_panels: Vec::new() }
    }

    /// A selection made of the given panels, in their order.
    pub fn from_panels(chart_panels: Vec<ChartPanel>) -> (plot: TimePlotData)
        ensures
            plot@ == panels_of(chart_panels@),
    {
        TimePlotData { chart_panels }
    }

    /// The panels, in their order.
    pub fn chart_panels(&self) -> (panels: &Vec<ChartPanel>)
        ensures
            panels_of(panels@) == self@,
    {
        &self.chart_panels
    }

    /// Throws every panel away and starts over with one empty panel. No panel
    /// is appended to those that were there: whatever was selected is gone.
    pub fn add_chart(&mut self)
        ensures
            final(self)@ == one_empty_panel(),
    {
        let mut chart_panels: Vec<ChartPanel> = Vec::new();
        chart_panels.push(ChartPanel::new());
        assert(panels_of(chart_panels@) =~= one_empty_panel());
        self.chart_panels = chart_panels;
    }

    /// Whether some panel holds a topic called `name`.
    pub fn has_topic(&self, name: &'static str) -> (found: bool)
        ensures
            found == holds(self@, name@),
    {
        let n: usize = self.chart_panels.len();
        let mut i: usize = 0;
        while i < n
            invariant
                i <= n,
                n == self.chart_panels@.len(),
                forall|k: int| 0 <= k < i ==> !(#[trigger] self@[k].contains(name@)),
            decreases n - i,
        {
            if self.chart_panels[i].has_topic(name) {
                assert(self@[i as int].contains(name@));
                return true;
            }
            i = i + 1;
        }
        false
    }

    /// Appends a topic called `name` to the last panel, after making one
    /// empty panel where there was none.
    pub fn add_topic(&mut self, name: &'static str)
        ensures
            final(self)@ == with_topic(old(self)@, name@),
            old(self)@.len() == 0 ==> final(self)@ == seq![seq![name@]],
            holds(final(self)@, name@),
    {
        if self.chart_panels.len() == 0 {
            self.add_chart();
        }
        let ghost base = self@;
        assert(base.len() > 0);
        let last: usize = self.chart_panels.len() - 1;
        self.chart_panels[last].add_topic(name);
        assert(self@ =~= base.update(last as int, base.last().push(name@)));
        proof {
            law_add_lands_in_last_panel(old(self)@, name@);
            law_add_to_nothing_makes_one_panel(name@);
        }
    }

    /// Removes every topic called `name` from every panel. The panels stay,
    /// empty ones too.
    pub fn remove_topic(&mut self, name: &'static str)
        ensures
            final(self)@ == without_topic(old(self)@, name@),
            final(self)@.len() == old(self)@.len(),
            forall|i: int| 0 <= i < final(self)@.len() ==> !(#[trigger] final(self)@[i]).contains(name@),
            !holds(final(self)@, name@),
    {
        let n: usize = self.chart_panels.len();
        let mut i: usize = 0;
        while i < n
            invariant
                i <= n,
                n == self.chart_panels@.len(),
                self@.len() == old(self)@.len(),
                forall|k: int| 0 <= k < i ==> #[trigger] self@[k] == without(old(self)@[k], name@),
                forall|k: int| i <= k < n ==> #[trigger] self@[k] == old(self)@[k],
            decreases n - i,
        {
            let ghost before = self@;
            self.chart_panels[i].remove_topic(name);
            assert(self@ =~= before.update(i as int, without(before[i as int], name@)));
            i = i + 1;
        }
        assert(self@ =~= without_topic(old(self)@, name@));
        proof {
            law_remove_clears_every_panel(old(self)@, name@);
        }
    }

    /// Switches the topic called `name`: removes it from every panel where
    /// some panel holds it, and appends it to the last panel otherwise. Either
    /// way the name is held afterwards exactly when it was not held before.
    pub fn toggle_topic(&mut self, name: &'static str)
        ensures
            final(self)@ == toggled(old(self)@, name@),
            holds(final(self)@, name@) == !holds(old(self)@, name@),
    {
        proof {
            law_toggle_flips(self@, name@);
        }
        if self.has_topic(name) {
            self.remove_topic(name);
        } else {
            self.add_topic(name);
        }
    }
}

impl Clone for TimePlotData {
    /// A selection with the same panels in the same order.
    fn clone(&self) -> (copy: TimePlotData)
        ensures
            copy@ == self@,
    {
        let n: usize = self.chart_panels.len();
        let mut chart_panels: Vec<ChartPanel> = Vec::new();
        let mut i: usize = 0;
        while i < n
            invariant
                i <= n,
                n == self.chart_panels@.len(),
                panels_of(chart_panels@) == self@.take(i as int),
            decreases n - i,
        {
            let panel = self.chart_panels[i].clone();
            assert(panel@ == self@[i as int]);
            chart_panels.push(panel);
            assert(panels_of(chart_panels@) =~= self@.take(i as int).push(panel@));
            assert(self@.take(i + 1) =~= self@.take(i as int).push(panel@));
            i = i + 1;
        }
        assert(self@.take(n as int) =~= self@);
        TimePlotData { chart_panels }
    }
}

impl Default for TimePlotData {
    /// A selection without panels.
    fn default() -> (plot: TimePlotData)
        ensures
            plot@ == Selection::empty(),
    {
        TimePlotData::new()
    }
}

} // verus!
