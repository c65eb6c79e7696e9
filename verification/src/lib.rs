//! Ingestion of flight-restriction advisories: snapshot diffing, extraction of
//! records from detail markup, keyword matching, and a deduplicated history.

pub mod cache;
pub mod diff;
pub mod history;
pub mod markup;
pub mod matcher;
pub mod notify;
pub mod parser;
pub mod pipeline;
pub mod records;
pub mod summary;
pub mod text;
