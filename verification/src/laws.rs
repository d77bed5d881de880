//! What holds of the operations on panels, stated over the contents they
//! work on and proved once for every selection and every name.

use vstd::prelude::*;

use crate::model::{
    duplicate_free, holds, one_empty_panel, other_than, toggled, with_topic, without,
    without_topic, PanelTopics, Selection, TopicName,
};

verus! {

/// Dropping `name` from a list that ends in `last` drops it from the front
/// part and keeps `last` exactly when `last` is another name.
pub proof fn lemma_without_push(topics: PanelTopics, last: TopicName, name: TopicName)
    ensures
        without(topics.push(last), name) == if last == name {
            without(topics, name)
        } else {
            without(topics, name).push(last)
        },
{
    reveal(Seq::filter);
    assert(topics.push(last).drop_last() =~= topics);
}

/// After `name` was dropped from a list, the list does not hold it.
pub proof fn lemma_without_drops_name(topics: PanelTopics, name: TopicName)
    ensures
        !without(topics, name).contains(name),
{
    let kept = without(topics, name);
    if kept.contains(name) {
        let i = choose|i: int| 0 <= i < kept.len() && kept[i] == name;
        topics.lemma_filter_pred(other_than(name), i);
    }
}

/// Dropping `name` from a list leaves every other name where it was: in
/// the list or out of it.
pub proof fn lemma_without_keeps_others(topics: PanelTopics, name: TopicName, other: TopicName)
    requires
        other != name,
    ensures
        without(topics, name).contains(other) == topics.contains(other),
{
    if topics.contains(other) {
        let i = choose|i: int| 0 <= i < topics.len() && topics[i] == other;
        topics.lemma_filter_contains(other_than(name), i);
    }
    if without(topics, name).contains(other) {
        topics.lemma_filter_contains_rev(other_than(name), other);
    }
}

/// Dropping a name that a list does not hold changes nothing.
pub proof fn lemma_without_absent(topics: PanelTopics, name: TopicName)
    requires
        !topics.contains(name),
    ensures
        without(topics, name) == topics,
    decreases topics.len(),
{
    if topics.len() == 0 {
        reveal(Seq::filter);
    } else {
        let front = topics.drop_last();
        let last = topics.last();
        assert(topics =~= front.push(last));
        assert(topics[topics.len() - 1] == last);
        assert forall|i: int| 0 <= i < front.len() implies front[i] != name by {
            assert(topics[i] == front[i]);
        }
        lemma_without_absent(front, name);
        lemma_without_push(front, last, name);
    }
}

/// A list without repeats stays without repeats when a name that it does
/// not hold is appended.
pub proof fn lemma_push_new_keeps_distinct(topics: PanelTopics, name: TopicName)
    requires
        topics.no_duplicates(),
        !topics.contains(name),
    ensures
        topics.push(name).no_duplicates(),
{
    let grown = topics.push(name);
    assert forall|i: int, j: int|
        0 <= i < grown.len() && 0 <= j < grown.len() && i != j implies grown[i] != grown[j] by {
        if i < topics.len() && j < topics.len() {
        } else if i < topics.len() {
            assert(topics.contains(topics[i]));
        } else {
            assert(topics.contains(topics[j]));
        }
    }
}

/// Dropping a name from a list without repeats leaves a list without repeats.
pub proof fn lemma_without_keeps_distinct(topics: PanelTopics, name: TopicName)
    requires
        topics.no_duplicates(),
    ensures
        without(topics, name).no_duplicates(),
    decreases topics.len(),
{
    if topics.len() == 0 {
        reveal(Seq::filter);
    } else {
        let front = topics.drop_last();
        let last = topics.last();
        assert(topics =~= front.push(last));
        lemma_without_keeps_distinct(front, name);
        lemma_without_push(front, last, name);
        if last != name {
            if without(front, name).contains(last) {
                front.lemma_filter_contains_rev(other_than(name), last);
                let i = choose|i: int| 0 <= i < front.len() && front[i] == last;
                assert(topics[i] == topics[topics.len() - 1]);
            }
            lemma_push_new_keeps_distinct(without(front, name), last);
        }
    }
}

/// Once a name is removed, no panel holds it, and every panel is still there.
pub proof fn law_remove_clears_every_panel(panels: Selection, name: TopicName)
    ensures
        without_topic(panels, name).len() == panels.len(),
        forall|i: int|
            0 <= i < panels.len() ==> !(#[trigger] without_topic(panels, name)[i]).contains(name),
        !holds(without_topic(panels, name), name),
{
    let after = without_topic(panels, name);
    assert forall|i: int| 0 <= i < panels.len() implies !(#[trigger] after[i]).contains(name) by {
        lemma_without_drops_name(panels[i], name);
    }
}

/// Removing a name a second time changes nothing: it is gone after the
/// first removal and stays gone.
pub proof fn law_remove_is_idempotent(panels: Selection, name: TopicName)
    ensures
        !holds(without_topic(panels, name), name),
        without_topic(without_topic(panels, name), name) == without_topic(panels, name),
        !holds(without_topic(without_topic(panels, name), name), name),
{
    law_remove_clears_every_panel(panels, name);
    let once = without_topic(panels, name);
    let twice = without_topic(once, name);
    assert forall|i: int| 0 <= i < once.len() implies #[trigger] twice[i] == once[i] by {
        lemma_without_absent(once[i], name);
    }
    assert(twice =~= once);
}

/// Removing a name that no panel holds changes nothing.
pub proof fn law_remove_absent_is_noop(panels: Selection, name: TopicName)
    requires
        !holds(panels, name),
    ensures
        without_topic(panels, name) == panels,
{
    let after = without_topic(panels, name);
    assert forall|i: int| 0 <= i < panels.len() implies #[trigger] after[i] == panels[i] by {
        assert(!panels[i].contains(name));
        lemma_without_absent(panels[i], name);
    }
    assert(after =~= panels);
}

/// Removing one name leaves every other name as it was: held or not.
pub proof fn law_remove_keeps_others(panels: Selection, name: TopicName, other: TopicName)
    requires
        other != name,
    ensures
        holds(without_topic(panels, name), other) == holds(panels, other),
{
    let after = without_topic(panels, name);
    if holds(panels, other) {
        let i = choose|i: int| 0 <= i < panels.len() && #[trigger] panels[i].contains(other);
        lemma_without_keeps_others(panels[i], name, other);
        assert(after[i].contains(other));
    }
    if holds(after, other) {
        let i = choose|i: int| 0 <= i < after.len() && #[trigger] after[i].contains(other);
        lemma_without_keeps_others(panels[i], name, other);
        assert(panels[i].contains(other));
    }
}

/// After a name was added, the last panel ends in it, the panels before the
/// last are untouched, and there are as many panels as before, or one where
/// there was none.
pub proof fn law_add_lands_in_last_panel(panels: Selection, name: TopicName)
    ensures
        with_topic(panels, name).len() == if panels.len() == 0 {
            1
        } else {
            panels.len()
        },
        with_topic(panels, name).last().len() > 0,
        with_topic(panels, name).last().last() == name,
        forall|i: int|
            0 <= i < panels.len() - 1 ==> #[trigger] with_topic(panels, name)[i] == panels[i],
        panels.len() > 0 ==> with_topic(panels, name).last() == panels.last().push(name),
        holds(with_topic(panels, name), name),
{
    let after = with_topic(panels, name);
    let last = after.len() - 1;
    assert(after[last][after[last].len() - 1] == name);
    assert(after[last].contains(name));
}

/// Adding a name where there is no panel gives exactly one panel, and that
/// panel holds the name and nothing else.
pub proof fn law_add_to_nothing_makes_one_panel(name: TopicName)
    ensures
        with_topic(Seq::empty(), name) == seq![seq![name]],
{
    assert(with_topic(Seq::empty(), name) =~~= seq![seq![name]]);
}

/// Adding one name leaves every other name as it was: held or not.
pub proof fn law_add_keeps_others(panels: Selection, name: TopicName, other: TopicName)
    requires
        other != name,
    ensures
        holds(with_topic(panels, name), other) == holds(panels, other),
{
    let after = with_topic(panels, name);
    let last = after.len() - 1;
    if holds(panels, other) {
        let i = choose|i: int| 0 <= i < panels.len() && #[trigger] panels[i].contains(other);
        let j = choose|j: int| 0 <= j < panels[i].len() && panels[i][j] == other;
        if i == last {
            assert(after[i][j] == other);
        }
        assert(after[i].contains(other));
    }
    if holds(after, other) {
        let i = choose|i: int| 0 <= i < after.len() && #[trigger] after[i].contains(other);
        let j = choose|j: int| 0 <= j < after[i].len() && after[i][j] == other;
        if panels.len() == 0 {
            assert(after[i][j] == name);
        } else {
            if i == last {
                assert(panels[i][j] == other);
            }
            assert(panels[i].contains(other));
        }
    }
}

/// A switch flips the name: held afterwards exactly when it was not held
/// before.
pub proof fn law_toggle_flips(panels: Selection, name: TopicName)
    ensures
        holds(toggled(panels, name), name) == !holds(panels, name),
{
    law_remove_clears_every_panel(panels, name);
    law_add_lands_in_last_panel(panels, name);
}

/// A switch of one name leaves every other name as it was: held or not.
pub proof fn law_toggle_keeps_others(panels: Selection, name: TopicName, other: TopicName)
    requires
        other != name,
    ensures
        holds(toggled(panels, name), other) == holds(panels, other),
{
    law_remove_keeps_others(panels, name, other);
    law_add_keeps_others(panels, name, other);
}

/// Two switches of the same name in a row leave it as it was: held or not.
pub proof fn law_toggle_twice_restores(panels: Selection, name: TopicName)
    ensures
        holds(toggled(toggled(panels, name), name), name) == holds(panels, name),
{
    law_toggle_flips(panels, name);
    law_toggle_flips(toggled(panels, name), name);
}

/// Switching on a name that was off and then off again gives the panels
/// back as they were. Where there was no panel, the empty panel that the
/// first switch made stays.
pub proof fn law_toggle_on_then_off(panels: Selection, name: TopicName)
    requires
        !holds(panels, name),
    ensures
        toggled(toggled(panels, name), name) == if panels.len() == 0 {
            one_empty_panel()
        } else {
            panels
        },
{
    let on = toggled(panels, name);
    law_toggle_flips(panels, name);
    let base = if panels.len() == 0 {
        one_empty_panel()
    } else {
        panels
    };
    let off = without_topic(on, name);
    assert forall|i: int| 0 <= i < base.len() implies #[trigger] off[i] == base[i] by {
        if panels.len() > 0 {
            assert(!panels[i].contains(name));
        } else {
            assert(base[i] =~= PanelTopics::empty());
        }
        lemma_without_absent(base[i], name);
        if i == base.len() - 1 {
            lemma_without_push(base[i], name, name);
        }
    }
    assert(off =~= base);
}

/// Starting over leaves one panel with nothing in it, so no name is held
/// and no panel repeats a name.
pub proof fn law_fresh_chart_holds_nothing(name: TopicName)
    ensures
        one_empty_panel().len() == 1,
        one_empty_panel()[0].len() == 0,
        !holds(one_empty_panel(), name),
        duplicate_free(one_empty_panel()),
{
}

/// Removing a name never makes a panel repeat a name.
pub proof fn law_remove_keeps_duplicate_free(panels: Selection, name: TopicName)
    requires
        duplicate_free(panels),
    ensures
        duplicate_free(without_topic(panels, name)),
{
    let after = without_topic(panels, name);
    assert forall|i: int| 0 <= i < after.len() implies (#[trigger] after[i]).no_duplicates() by {
        assert(panels[i].no_duplicates());
        lemma_without_keeps_distinct(panels[i], name);
    }
}

/// Adding a name that no panel holds never makes a panel repeat a name.
pub proof fn law_add_new_keeps_duplicate_free(panels: Selection, name: TopicName)
    requires
        duplicate_free(panels),
        !holds(panels, name),
    ensures
        duplicate_free(with_topic(panels, name)),
{
    let after = with_topic(panels, name);
    assert forall|i: int| 0 <= i < after.len() implies (#[trigger] after[i]).no_duplicates() by {
        if panels.len() == 0 {
            lemma_push_new_keeps_distinct(Seq::empty(), name);
        } else {
            assert(panels[i].no_duplicates());
            assert(!panels[i].contains(name));
            if i == panels.len() - 1 {
                lemma_push_new_keeps_distinct(panels[i], name);
            }
        }
    }
}

/// A switch never makes a panel repeat a name: where no panel held a name
/// twice before, none does afterwards.
pub proof fn law_toggle_keeps_duplicate_free(panels: Selection, name: TopicName)
    requires
        duplicate_free(panels),
    ensures
        duplicate_free(toggled(panels, name)),
{
    if holds(panels, name) {
        law_remove_keeps_duplicate_free(panels, name);
    } else {
        law_add_new_keeps_duplicate_free(panels, name);
    }
}

} // verus!
