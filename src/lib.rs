//! Allocation statistics: per-thread counters, shared aggregation points that
//! they are flushed into, and the policies that decide when a flush happens.
//!
//! Everything here is plain, synchronous computation on values that the caller
//! hands in: the thread's own statistics, the current time as nanoseconds on a
//! monotonic clock, and the process-wide default rollup. Keeping them in
//! thread-local storage and installing the allocator is left to the caller.
pub mod region;
pub mod reporter;
pub mod rollup;
pub mod summary;
pub mod thread_stats;

pub use region::Region;
pub use reporter::{
    AlwaysReport, Flush, IntervalReport, LocalAlwaysReport, LocalIntervalReport, NeverReport,
    Reporter, Target,
};
pub use rollup::Rollup;
pub use summary::{Event, Summary};
pub use thread_stats::ThreadStats;
