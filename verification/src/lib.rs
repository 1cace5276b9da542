//! Runtime storage modules with an explicit, metered backing store.
//!
//! Every dispatchable call is authorised by a signed origin, reads the slots
//! it needs through metered primitives, checks its arithmetic before it
//! writes, and deposits one event for each state change it announces.

pub mod simple_map;
pub mod storage;
pub mod storage_cache;
pub mod system;
pub mod weights;
