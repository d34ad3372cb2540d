//! Verified core of the CoreMIDI bindings: status codes, packet and event
//! list images, UMP message helpers, thru-connection parameter blobs,
//! notification decoding and the receive-side bookkeeping.

pub mod async_api;
pub mod capability;
pub mod driver;
pub mod endpoint;
pub mod error;
pub mod ffi;
pub mod network;
pub mod notification;
pub mod object;
pub mod packet;
pub mod port;
pub mod prelude;
pub mod private;
pub mod property;
pub mod receiver;
pub mod thru_connection;
pub mod wire;

pub use endpoint::{VirtualDestination, VirtualSource};
pub use error::{MidiError, MidiResult, MidiStatus};
pub use ffi::{MIDIEventList, MIDIEventPacket, MIDINotification, MIDIPacket, MIDIPacketList, MIDIUniversalMessage};
pub use object::{devices, MidiDevice, MidiEndpoint, MidiEntity, MidiProperty};
pub use packet::{
    EventListBuffer, EventListRef, MidiEventPacketRef, MidiPacketRef, MidiProtocol, PacketListBuffer,
    PacketListRef,
};
pub use port::{MidiInputPort, MidiOutputPort};
