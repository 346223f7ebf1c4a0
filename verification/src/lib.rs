//! A cooperative task-polling runtime, stated as verified state machines.

pub mod collect;
pub mod compat;
pub mod enter;
pub mod local_pool;
pub mod option_future;
pub mod park;
pub mod poll;
pub mod pool_laws;
pub mod pool_model;
pub mod thread_pool;
pub mod wake_slot;
