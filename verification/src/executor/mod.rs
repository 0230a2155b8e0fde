//! Task layer of the runtime.

pub mod atomic_cell;
pub mod causal_cell;
pub mod linked_list;
pub mod pool;
pub mod task;
