//! Packet lists, event lists and Universal MIDI Packet helpers.
pub mod events;
pub mod list;
pub mod ump;

pub use events::{EventIter, EventListBuffer, EventListRef, MidiEventPacketRef};
pub use list::{MidiPacketRef, PacketIter, PacketLayout, PacketListBuffer, PacketListRef};
pub use ump::{MidiMessageType, MidiProtocol};
