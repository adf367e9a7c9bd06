//! Fixed-window request admission: per-client counters in a window store and
//! the decision whether a request is admitted or rejected.
pub mod headers;
pub mod laws;
pub mod limiter;
pub mod memory;
pub mod store;
