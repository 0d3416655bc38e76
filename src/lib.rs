//! A conditional questionnaire for planning a coding task: a fixed catalog of
//! questions with visibility rules, an answer map keyed by question id, and the
//! rendering of answers into a task prompt and a markdown design document.

pub mod answers;
pub mod flow;
pub mod catalog;
pub mod prompt;
pub mod design_doc;
