//! An allocation wrapper that counts live bytes and calls back once the
//! count crosses a configurable threshold.
//!
//! `ledger` holds the bookkeeping rules, `laws` what they guarantee over a
//! sequential trace of allocator events, and `thresher` the shared wrapper
//! that applies them with atomic counters.

pub mod laws;
pub mod ledger;
pub mod thresher;

pub use ledger::{Change, Event, DISABLED};
pub use thresher::{AlreadyRegistered, Callback, Thresher};
