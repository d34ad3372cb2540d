//! The object model as the crate root offers it: devices, entities,
//! endpoints and the properties they are asked about.
pub use crate::endpoint::{devices, MidiDevice, MidiDeviceIter, MidiEndpoint, MidiEntity, MidiEntityIter};
pub use crate::property::MidiProperty;
