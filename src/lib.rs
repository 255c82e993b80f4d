//! Grading worker core: language conventions, test discovery rules,
//! per-test classification and verdict aggregation.
pub mod text;
pub mod verdict;
pub mod language;
pub mod query;
pub mod discovery;
