//! A minimal GPU-compute bootstrap, modelled and verified.
//!
//! The library covers the part of a one-shot compute dispatch that is worth
//! specifying: picking a capable physical device and queue family, planning
//! the API instance, creating the logical device and queue pair, and driving
//! the build / submit / await-and-read state machine of a single compute job
//! with correct ordering between host writes, device execution and host
//! reads. Window handling and the driver calls themselves are left to the
//! surrounding application, which feeds this library plain descriptor values
//! and performs the actions it decides on.

pub mod device;
pub mod error;
pub mod events;
pub mod instance;
pub mod job;
pub mod logical;

pub use error::CoreError;
