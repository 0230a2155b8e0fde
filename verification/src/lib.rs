//! The decision logic of a small asynchronous runtime: the task state word
//! and the operations built on it, the reactor's readiness bookkeeping and
//! the park protocol, written as sequential steps whose effects are stated
//! in contracts and proved.

pub mod block_on;
pub mod executor;
pub mod framed;
pub mod io;
pub mod park;
pub mod scheduler;
