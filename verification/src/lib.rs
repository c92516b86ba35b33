//! A store of feature vectors that many callers read and update at once, the
//! coordinator of its bulk refreshes, and the scoring protocol built on it.
//!
//! - [`store`]: the store itself, with its two levels of locking.
//! - [`model`]: the store as one caller at a time sees it, and its laws.
//! - [`refresh`]: bulk refreshes, one at a time and all or nothing.
//! - [`scoring`]: from a fetched vector to exactly one outcome.

pub mod model;
pub mod refresh;
pub mod scoring;
pub mod store;
mod sync;
