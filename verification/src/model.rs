//! The mathematical picture of a selection: names as character sequences,
//! a panel as the sequence of names it holds, a selection as the sequence
//! of its panels. Every contract of the crate is stated over these.

use vstd::prelude::*;

verus! {

/// A topic's name.
pub type TopicName = Seq<char>;

/// What a panel holds: names in their order, repeats included.
pub type PanelTopics = Seq<Seq<char>>;

/// What a selection holds: its panels in their order.
pub type Selection = Seq<Seq<Seq<char>>>;

/// The test that a name passes when it is another name than `name`.
pub open spec fn other_than(name: TopicName) -> spec_fn(TopicName) -> bool {
    |topic: TopicName| topic != name
}

/// The names in `topics` that differ from `name`, in their order.
pub open spec fn without(topics: PanelTopics, name: TopicName) -> PanelTopics {
    topics.filter(other_than(name))
}

/// Whether some panel holds a topic called `name`.
pub open spec fn holds(panels: Selection, name: TopicName) -> bool {
    exists|i: int| 0 <= i < panels.len() && #[trigger] panels[i].contains(name)
}

/// A fresh selection: one panel, and nothing in it.
pub open spec fn one_empty_panel() -> Selection {
    seq![Seq::<Seq<char>>::empty()]
}

/// `panels` with `name` appended to the last panel. Where there is no panel,
/// a single panel that holds `name` alone.
pub open spec fn with_topic(panels: Selection, name: TopicName) -> Selection {
    let base = if panels.len() == 0 {
        one_empty_panel()
    } else {
        panels
    };
    base.update(base.len() - 1, base.last().push(name))
}

/// `panels` with `name` dropped from every panel. No panel is dropped.
pub open spec fn without_topic(panels: Selection, name: TopicName) -> Selection {
    panels.map_values(|panel: PanelTopics| without(panel, name))
}

/// `panels` after `name` was switched: off where some panel held it, on
/// otherwise.
pub open spec fn toggled(panels: Selection, name: TopicName) -> Selection {
    if holds(panels, name) {
        without_topic(panels, name)
    } else {
        with_topic(panels, name)
    }
}

/// No panel holds the same name twice.
pub open spec fn duplicate_free(panels: Selection) -> bool {
    forall|i: int| 0 <= i < panels.len() ==> (#[trigger] panels[i]).no_duplicates()
}

} // verus!
