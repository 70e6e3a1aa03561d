//! Observation of finalized blocks for watched calls.

pub mod basic;
pub mod error;
pub mod event;
pub mod handling;
pub mod run;
pub mod ssmp;
pub mod target;

pub use error::ErrorKind;
pub use handling::FinalityNotification;
pub use ssmp::{SSMPObserver, SSMPWorker};
pub use target::WatchTarget;
