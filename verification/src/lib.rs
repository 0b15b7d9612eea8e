//! Client-side connector for a forum-style tracker: encodes paginated search
//! requests, extracts structured listing records from returned HTML, and
//! classifies HTTP responses for artifact and metadata fetches.

pub mod config;
pub mod error;
pub mod extract;
pub mod fetch;
pub mod query;
pub mod text;
