//! Storages for reference counted handles, with generation tokens for conditional updates.
//!
//! An [`ArcSwapAny`] holds one handle. Its value can be loaded and replaced, and it can be replaced
//! on a condition: that it is still at a given address
//! ([`compare_and_swap`](ArcSwapAny::compare_and_swap)), or that it is still the very publication
//! that an [`Observation`] was taken of
//! ([`compare_exchange_observed`](ArcSwapAny::compare_exchange_observed)). The second is not fooled
//! by a value that was replaced and put back.
//!
//! The storage itself is for one thread, or for several behind a lock. [`claim`] is the protocol by
//! which threads get by without one.
//!
//! - [`model`] says what a storage is and what every operation does to it.
//! - [`laws`] holds what is promised of storages over any course of writes.
//! - [`claim_laws`] holds what is promised of the claim protocol under any interleaving.

mod as_raw;
pub mod claim;
pub mod claim_laws;
mod debug;
pub mod digits;
mod guard;
pub mod laws;
pub mod model;
mod observation;
mod ref_cnt;
mod refused;
mod sealed;
mod storage;

pub use crate::as_raw::AsRaw;
pub use crate::guard::Guard;
pub use crate::observation::{Observation, GENERATION_SATURATED};
pub use crate::ref_cnt::RefCnt;
pub use crate::refused::Refused;
pub use crate::storage::{ArcSwap, ArcSwapAny, ArcSwapOption};
