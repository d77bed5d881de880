//! The topics a user can choose from.

use vstd::prelude::*;

use crate::model::PanelTopics;

verus! {

/// The names on offer, in the order in which they are shown.
pub open spec fn catalog() -> PanelTopics {
    seq!["data_1"@, "data_2"@, "data_3"@, "data_4"@, "data_5"@, "data_6"@, "data_7"@]
}

/// No name is on offer twice, so a switch of one entry never touches
/// another.
pub proof fn law_catalog_is_distinct()
    ensures
        catalog().len() == 7,
        catalog().no_duplicates(),
{
    reveal_strlit("data_1");
    reveal_strlit("data_2");
    reveal_strlit("data_3");
    reveal_strlit("data_4");
    reveal_strlit("data_5");
    reveal_strlit("data_6");
    reveal_strlit("data_7");
    let names = catalog();
    assert(names[0][5] == '1');
    assert(names[1][5] == '2');
    assert(names[2][5] == '3');
    assert(names[3][5] == '4');
    assert(names[4][5] == '5');
    assert(names[5][5] == '6');
    assert(names[6][5] == '7');
}

/// The names on offer, in the order in which they are shown.
pub fn available_entries() -> (entries: Vec<&'static str>)
    ensures
        entries@.len() == catalog().len(),
        forall|i: int| 0 <= i < entries@.len() ==> (#[trigger] entries@[i])@ == catalog()[i],
{
    let mut entries: Vec<&'static str> = Vec::new();
    entries.push("data_1");
    entries.push("data_2");
    entries.push("data_3");
    entries.push("data_4");
    entries.push("data_5");
    entries.push("data_6");
    entries.push("data_7");
    entries
}

} // verus!
