//! Resumable, rate-limit aware bulk deletion of archived posts.
//!
//! The library holds the decisions: which archive records are in scope, how a
//! deletion outcome is classified, how long to wait after a throttled call, and
//! the driver state machine that walks the work queue and says when the
//! remaining work must be persisted. The caller performs the network calls,
//! the waits and the file writes.
pub mod date;
pub mod decimal;
pub mod filter;
pub mod pipeline;
pub mod policy;

pub use date::{CalendarDate, parse_cutoff, parse_post_date};
pub use decimal::parse_u64;
pub use policy::{
    Action, FatalReason, RateLimitSignal, RetryPolicy, TerminalOutcome, classify_response,
};
pub use filter::{
    ArchiveRecord, Direction, FilterError, PostFields, WorkItem, date_is_in_scope, filter_records,
};
pub use pipeline::{Phase, Pipeline, Reaction, RunResult, Step};
