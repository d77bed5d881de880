//! State behind a time-plot topic selector: chart panels that hold the
//! topics a user has switched on, and the operations that switch them.
//!
//! `model` says what a selection is as plain sequences of names, `panel` and
//! `plot` hold the data types and their operations, `laws` proves what the
//! operations guarantee, `catalog` lists the topics on offer, and `text`
//! compares names.

pub mod catalog;
pub mod laws;
pub mod model;
pub mod panel;
pub mod plot;
pub mod text;
pub mod topic;

pub use catalog::available_entries;
pub use panel::ChartPanel;
pub use plot::TimePlotData;
pub use topic::TopicBuffer;
