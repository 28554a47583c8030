//! Verified decision core of a ReAct agent loop: response classification,
//! retry policy, context injection formatting, bounded per-session caches,
//! run budgets, metrics and transcript state.

pub mod text;
pub mod json;
pub mod types;
pub mod ids;
pub mod lifecycle;
pub mod driver;
pub mod keyed;
pub mod snapshot;
pub mod sidecars;
pub mod inject;
pub mod state;
pub mod tool_batch;
pub mod metrics;
pub mod identity;
pub mod hooks;
pub mod stream;
pub mod token;
pub mod engine;
pub mod schema;
pub mod admission;
pub mod media;
pub mod request;
pub mod response_policy;
pub mod response_parse;
pub mod response_cycle;
