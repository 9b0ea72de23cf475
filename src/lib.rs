//! Capability interfaces for reading control channels from a radio receiver,
//! with the error taxonomy they share and two simulated backends.

pub mod capability;
pub mod disconnected;
pub mod error;
pub mod ratio;
pub mod vehicle;

pub use capability::{ChannelAddressing, PollChannels, PollData, RadioController};
pub use disconnected::DisconnectedRadio;
pub use error::{RadioControlError, RadioError};
pub use ratio::Ratio;
pub use vehicle::VehicleRadio;
