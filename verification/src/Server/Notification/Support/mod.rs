//! Helpers shared by several notification handlers.

pub mod RelayToSky;
pub mod UnregisterByHandle;
