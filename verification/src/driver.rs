//! Driver interface identifiers and driver-owned devices.
use vstd::prelude::*;
use crate::endpoint::MidiDevice;

verus! {

/// The CoreMIDI driver interface UUIDs and the serial-port property key.
#[derive(Debug, Clone, PartialEq, Eq)]
pub struct DriverInterfaceIds {
    pub driver_type_id: String,
    pub driver_interface_id: String,
    pub driver_interface2_id: String,
    pub driver_interface3_id: String,
    pub uses_serial_property: String,
}

/// A device a driver created (`MIDIDeviceCreate`).
#[derive(Debug)]
pub struct DriverOwnedDevice {
    raw: u32,
}

impl DriverOwnedDevice {
    pub closed spec fn spec_raw(&self) -> u32 {
        self.raw
    }

    /// The device with this reference.
    pub fn from_raw(raw: u32) -> (r: Self)
        ensures
            r.spec_raw() == raw,
    {
        DriverOwnedDevice { raw }
    }

    /// The wrapped `MIDIDeviceRef`.
    pub fn raw(&self) -> (r: u32)
        ensures
            r == self.spec_raw(),
    {
        self.raw
    }

    /// The device as a `MidiDevice`.
    pub fn as_midi_device(&self) -> (r: MidiDevice)
        ensures
            r == MidiDevice::spec_from_raw(self.spec_raw()),
    {
        MidiDevice::from_raw(self.raw)
    }
}

} // verus!
