//! The reactor: readiness bits per source, and who is woken by them.

pub mod driver;
pub mod poll_evented;
pub mod ready;
pub mod registration;
pub mod scheduled;
pub mod superslab;

pub use self::driver::{Direction, Driver};
pub use self::poll_evented::PollEvented;
pub use self::registration::Registration;
pub use self::scheduled::Scheduled;
pub use self::superslab::{Key, SuperSlab};
