pub mod errors;
pub mod keyed;
pub mod network;
pub mod smart_devices;
pub mod structures;
pub mod text;

pub use crate::network::DeviceCommands;
pub use crate::smart_devices::{SocketCommand, TCPSmartElectricalSocket};
pub use crate::structures::{Room, SmartHome};
