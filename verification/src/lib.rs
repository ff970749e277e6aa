//! Verified core of a code-search and issue-sync service: index schema and
//! search-query construction over a tantivy index, the event-file rotation
//! rules, the issue table's paging queries, and the GitHub issue sync job.

pub mod event;
pub mod git_job;
pub mod http;
pub mod index;
pub mod issues;
pub mod text;
