//! A chart panel: the ordered list of topics shown together.

use vstd::prelude::*;

use crate::laws::{lemma_without_drops_name, lemma_without_push};
use crate::model::{without, PanelTopics};
use crate::text::same_text;
use crate::topic::TopicBuffer;

verus! {

/// The names of a list of topics, in their order.
pub open spec fn names_of(topics: Seq<TopicBuffer>) -> PanelTopics {
    topics.map_values(|topic: TopicBuffer| topic@)
}

/// An ordered list of topics. A name may occur more than once: `add_topic`
/// appends without looking.
#[derive(Debug)]
pub struct ChartPanel {
    topic_buffers: Vec<TopicBuffer>,
}

impl View for ChartPanel {
    type V = PanelTopics;

    /// The names of the panel's topics, in their order.
    closed spec fn view(&self) -> PanelTopics {
        names_of(self.topic_buffers@)
    }
}

impl ChartPanel {
    /// A panel without topics.
    pub fn new() -> (panel: ChartPanel)
        ensures
            panel@ == PanelTopics::empty(),
    {
        ChartPanel { topic_buffers: Vec::new() }
    }

    /// The panel's topics, in their order.
    pub fn topic_buffers(&self) -> (topics: &Vec<TopicBuffer>)
        ensures
            names_of(topics@) == self@,
    {
        &self.topic_buffers
    }

    /// Whether the panel holds no topic.
    pub fn is_empty(&self) -> (empty: bool)
        ensures
            empty == (self@.len() == 0),
    {
        self.topic_buffers.len() == 0
    }

    /// Whether some topic of the panel is called `name`.
    pub fn has_topic(&self, name: &'static str) -> (found: bool)
        ensures
            found == self@.contains(name@),
    {
        let n: usize = self.topic_buffers.len();
        let mut i: usize = 0;
        while i < n
            invariant
                i <= n,
                n == self.topic_buffers@.len(),
                forall|k: int| 0 <= k < i ==> self@[k] != name@,
            decreases n - i,
        {
            if same_text(self.topic_buffers[i].identifier(), name) {
                assert(self@[i as int] == name@);
                return true;
            }
            i = i + 1;
        }
        false
    }

    /// Appends a topic called `name`, whether or not the panel already has one.
    pub fn add_topic(&mut self, name: &'static str)
        ensures
            final(self)@ == old(self)@.push(name@),
            final(self)@.contains(name@),
    {
        self.topic_buffers.push(TopicBuffer::new(name));
        assert(self@ =~= old(self)@.push(name@));
        assert(self@[self@.len() - 1] == name@);
    }

    /// Removes every topic called `name` and keeps the others in their order.
    pub fn remove_topic(&mut self, name: &'static str)
        ensures
            final(self)@ == without(old(self)@, name@),
            !final(self)@.contains(name@),
    {
        let n: usize = self.topic_buffers.len();
        let mut kept: Vec<TopicBuffer> = Vec::new();
        let mut i: usize = 0;
        while i < n
            invariant
                i <= n,
                n == self.topic_buffers@.len(),
                names_of(kept@) == without(self@.take(i as int), name@),
            decreases n - i,
        {
            let topic = self.topic_buffers[i];
            proof {
                lemma_without_push(self@.take(i as int), topic@, name@);
                assert(self@.take(i + 1) =~= self@.take(i as int).push(topic@));
            }
            if !same_text(topic.identifier(), name) {
                kept.push(topic);
                assert(names_of(kept@) =~= without(self@.take(i as int), name@).push(topic@));
            }
            i = i + 1;
        }
        proof {
            assert(self@.take(n as int) =~= self@);
            lemma_without_drops_name(self@, name@);
        }
        self.topic_buffers = kept;
    }
}

impl Clone for ChartPanel {
    /// A panel with the same topics in the same order.
    fn clone(&self) -> (copy: ChartPanel)
        ensures
            copy@ == self@,
    {
        let n: usize = self.topic_buffers.len();
        let mut topic_buffers: Vec<TopicBuffer> = Vec::new();
        let mut i: usize = 0;
        while i < n
            invariant
                i <= n,
                n == self.topic_buffers@.len(),
                topic_buffers@ == self.topic_buffers@.take(i as int),
            decreases n - i,
        {
            topic_buffers.push(self.topic_buffers[i]);
            assert(topic_buffers@ =~= self.topic_buffers@.take(i + 1));
            i = i + 1;
        }
        assert(topic_buffers@ =~= self.topic_buffers@);
        ChartPanel { topic_buffers }
    }
}

impl Default for ChartPanel {
    /// A panel without topics.
    fn default() -> (panel: ChartPanel)
        ensures
            panel@ == PanelTopics::empty(),
    {
        ChartPanel::new()
    }
}

} // verus!
