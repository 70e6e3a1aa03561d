//! The runtime modules: the registry of watch targets, and the record of transitions, proofs and
//! messages.

pub mod config;
pub mod origin;
pub mod record;
pub mod ssmp;

pub use config::{BlakeTwo256, Config, FrostHash};
pub use origin::{DispatchError, Origin};
pub use ssmp::{Error, Event, Pallet};
