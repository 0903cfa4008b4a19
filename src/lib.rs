//! Fenrir: turns an operator's free-text request into a supervised shell action.
//!
//! The library holds the verified core: the task-card text protocol, the
//! time-segment classifier, the retry/fallback decisions around the reasoning
//! engine, the confirm/edit loop, the dispatch rules, the argument bundles of
//! the external tools and the audit log's records.

pub mod text;
pub mod segment;
pub mod task;
pub mod card;
pub mod fallback;
pub mod oracle;
pub mod enhance;
pub mod dispatch;
pub mod tools;
pub mod audit;
pub mod session;
