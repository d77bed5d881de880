use time_plot::text::same_text;
use time_plot::{ChartPanel, TopicBuffer};

fn panel_names(panel: &ChartPanel) -> Vec<&'static str> {
    panel.topic_buffers().iter().map(|topic| topic.identifier()).collect()
}

fn panel_of(names: &[&'static str]) -> ChartPanel {
    let mut panel = ChartPanel::new();
    for name in names {
        panel.add_topic(name);
    }
    panel
}

#[test]
fn same_text_accepts_equal_names() {
    assert!(same_text("data_1", "data_1"));
    assert!(same_text("", ""));
    assert!(same_text("größe", "größe"));
}

#[test]
fn same_text_rejects_different_names() {
    assert!(!same_text("data_1", "data_2"));
    assert!(!same_text("data_1", "data_"));
    assert!(!same_text("data_", "data_1"));
    assert!(!same_text("", "x"));
    assert!(!same_text("DATA_1", "data_1"));
    assert!(!same_text("größe", "grösse"));
}

#[test]
fn topic_keeps_its_identifier() {
    let topic = TopicBuffer::new("data_4");
    assert_eq!(topic.identifier(), "data_4");
}

#[test]
fn topics_are_equal_by_identifier() {
    assert_eq!(TopicBuffer::new("data_4"), TopicBuffer::new("data_4"));
    assert_ne!(TopicBuffer::new("data_4"), TopicBuffer::new("data_5"));
    let copy = TopicBuffer::new("data_6").clone();
    assert_eq!(copy, TopicBuffer::new("data_6"));
}

#[test]
fn new_panel_is_empty() {
    let panel = ChartPanel::new();
    assert!(panel.is_empty());
    assert_eq!(panel_names(&panel), Vec::<&str>::new());
    assert!(!panel.has_topic("data_1"));
}

#[test]
fn default_panel_is_empty() {
    let panel = ChartPanel::default();
    assert!(panel.is_empty());
    assert!(panel.topic_buffers().is_empty());
}

#[test]
fn panel_with_a_topic_is_not_empty() {
    let panel = panel_of(&["data_1"]);
    assert!(!panel.is_empty());
}

#[test]
fn panel_has_exactly_the_topics_added() {
    let panel = panel_of(&["data_1", "data_3"]);
    assert!(panel.has_topic("data_1"));
    assert!(panel.has_topic("data_3"));
    assert!(!panel.has_topic("data_2"));
    assert!(!panel.has_topic("data_"));
    assert!(!panel.has_topic(""));
}

#[test]
fn panel_add_topic_appends_in_order() {
    let mut panel = ChartPanel::new();
    panel.add_topic("data_3");
    panel.add_topic("data_1");
    panel.add_topic("data_2");
    assert_eq!(panel_names(&panel), vec!["data_3", "data_1", "data_2"]);
}

#[test]
fn panel_add_topic_does_not_deduplicate() {
    let mut panel = ChartPanel::new();
    panel.add_topic("data_1");
    panel.add_topic("data_1");
    assert_eq!(panel_names(&panel), vec!["data_1", "data_1"]);
}

#[test]
fn panel_remove_topic_removes_every_occurrence_and_keeps_order() {
    let mut panel = panel_of(&["data_2", "data_1", "data_2", "data_3", "data_2"]);
    panel.remove_topic("data_2");
    assert_eq!(panel_names(&panel), vec!["data_1", "data_3"]);
    assert!(!panel.has_topic("data_2"));
}

#[test]
fn panel_remove_topic_without_match_changes_nothing() {
    let mut panel = panel_of(&["data_1", "data_3"]);
    panel.remove_topic("data_2");
    assert_eq!(panel_names(&panel), vec!["data_1", "data_3"]);
    let mut empty = ChartPanel::new();
    empty.remove_topic("data_2");
    assert!(empty.is_empty());
}

#[test]
fn panel_remove_last_topic_leaves_it_empty() {
    let mut panel = panel_of(&["data_5"]);
    panel.remove_topic("data_5");
    assert!(panel.is_empty());
}

#[test]
fn panel_clone_is_independent() {
    let mut panel = panel_of(&["data_1", "data_2"]);
    let copy = panel.clone();
    panel.remove_topic("data_1");
    assert_eq!(panel_names(&copy), vec!["data_1", "data_2"]);
    assert_eq!(panel_names(&panel), vec!["data_2"]);
}
