//! A selected topic.

use vstd::prelude::*;
use vstd::std_specs::cmp::PartialEqSpecImpl;

use crate::model::TopicName;
use crate::text::same_text;

verus! {

/// A topic that sits in a chart panel, known by its name alone.
#[derive(Clone, Copy, Debug)]
pub struct TopicBuffer {
    identifier: &'static str,
}

impl View for TopicBuffer {
    type V = TopicName;

    /// The topic's name as a sequence of characters.
    closed spec fn view(&self) -> TopicName {
        self.identifier@
    }
}

impl TopicBuffer {
    /// A topic with the given name.
    pub fn new(identifier: &'static str) -> (topic: TopicBuffer)
        ensures
            topic@ == identifier@,
    {
        TopicBuffer { identifier }
    }

    /// The topic's name.
    pub fn identifier(&self) -> (name: &'static str)
        ensures
            name@ == self@,
    {
        self.identifier
    }
}

impl PartialEq for TopicBuffer {
    /// Two topics are equal when they carry the same name.
    fn eq(&self, other: &TopicBuffer) -> (equal: bool) {
        same_text(self.identifier, other.identifier)
    }
}

impl Eq for TopicBuffer {}

impl PartialEqSpecImpl for TopicBuffer {
    open spec fn obeys_eq_spec() -> bool {
        true
    }

    open spec fn eq_spec(&self, other: &TopicBuffer) -> bool {
        self@ == other@
    }
}

} // verus!
