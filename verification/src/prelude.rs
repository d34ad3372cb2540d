//! The names most programs need, in one import.
pub use crate::{
    devices, EventListBuffer, EventListRef, MidiDevice, MidiEndpoint, MidiEntity, MidiError,
    MidiEventPacketRef, MidiInputPort, MidiOutputPort, MidiPacketRef, MidiProperty, MidiProtocol,
    MidiResult, MidiStatus, PacketListBuffer, PacketListRef, VirtualDestination, VirtualSource,
};
