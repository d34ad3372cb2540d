//! Devices, entities and endpoints, the iterators over them, virtual
//! endpoints and UMP endpoint snapshots.
use vstd::prelude::*;

verus! {

/// A `MIDIDeviceRef`.
#[derive(Debug, Clone, Copy, PartialEq, Eq, Hash)]
pub struct MidiDevice {
    raw: u32,
}

/// A `MIDIEntityRef`.
#[derive(Debug, Clone, Copy, PartialEq, Eq, Hash)]
pub struct MidiEntity {
    raw: u32,
}

/// A `MIDIEndpointRef`.
#[derive(Debug, Clone, Copy, PartialEq, Eq, Hash)]
pub struct MidiEndpoint {
    raw: u32,
}

impl MidiDevice {
    /// The device with this reference.
    pub closed spec fn spec_from_raw(raw: u32) -> Self {
        MidiDevice { raw }
    }

    /// The device's reference.
    pub closed spec fn spec_raw(self) -> u32 {
        self.raw
    }

    /// Two devices are the same exactly when their references are, and the
    /// device made from a reference has that reference.
    pub proof fn lemma_raw_identity(a: Self, b: Self, raw: u32)
        ensures
            a == b <==> a.spec_raw() == b.spec_raw(),
            Self::spec_from_raw(raw).spec_raw() == raw,
            Self::spec_from_raw(a.spec_raw()) == a,
    {
    }

    /// Wraps a `MIDIDeviceRef`.
    pub fn from_raw(raw: u32) -> (r: Self)
        ensures
            r == Self::spec_from_raw(raw),
            r.spec_raw() == raw,
    {
        MidiDevice { raw }
    }

    /// The wrapped `MIDIDeviceRef`.
    pub fn raw(self) -> (r: u32)
        ensures
            r == self.spec_raw(),
    {
        self.raw
    }

    /// Walks the device's `count` entities (`MIDIDeviceGetNumberOfEntities`).
    pub fn entities(self, count: usize) -> (r: MidiEntityIter)
        ensures
            r.spec_device() == self,
            r.spec_index() == 0,
            r.spec_count() == count,
    {
        MidiEntityIter { device: self, index: 0, count }
    }
}

impl MidiEntity {
    /// The entity with this reference.
    pub closed spec fn spec_from_raw(raw: u32) -> Self {
        MidiEntity { raw }
    }

    /// The entity's reference.
    pub closed spec fn spec_raw(self) -> u32 {
        self.raw
    }

    /// Two entities are the same exactly when their references are, and the
    /// entity made from a reference has that reference.
    pub proof fn lemma_raw_identity(a: Self, b: Self, raw: u32)
        ensures
            a == b <==> a.spec_raw() == b.spec_raw(),
            Self::spec_from_raw(raw).spec_raw() == raw,
            Self::spec_from_raw(a.spec_raw()) == a,
    {
    }

    /// Wraps a `MIDIEntityRef`.
    pub fn from_raw(raw: u32) -> (r: Self)
        ensures
            r == Self::spec_from_raw(raw),
            r.spec_raw() == raw,
    {
        MidiEntity { raw }
    }

    /// The wrapped `MIDIEntityRef`.
    pub fn raw(self) -> (r: u32)
        ensures
            r == self.spec_raw(),
    {
        self.raw
    }

    /// Walks the entity's `count` sources (`MIDIEntityGetNumberOfSources`).
    pub fn sources(self, count: usize) -> (r: MidiEndpointIter)
        ensures
            r.spec_kind() == EndpointIterKind::EntitySources(self),
            r.spec_index() == 0,
            r.spec_count() == count,
    {
        MidiEndpointIter { kind: EndpointIterKind::EntitySources(self), index: 0, count }
    }

    /// Walks the entity's `count` destinations
    /// (`MIDIEntityGetNumberOfDestinations`).
    pub fn destinations(self, count: usize) -> (r: MidiEndpointIter)
        ensures
            r.spec_kind() == EndpointIterKind::EntityDestinations(self),
            r.spec_index() == 0,
            r.spec_count() == count,
    {
        MidiEndpointIter { kind: EndpointIterKind::EntityDestinations(self), index: 0, count }
    }
}

impl MidiEndpoint {
    /// The endpoint with this reference.
    pub closed spec fn spec_from_raw(raw: u32) -> Self {
        MidiEndpoint { raw }
    }

    /// The endpoint's reference.
    pub closed spec fn spec_raw(self) -> u32 {
        self.raw
    }

    /// Two endpoints are the same exactly when their references are, and the
    /// endpoint made from a reference has that reference.
    pub proof fn lemma_raw_identity(a: Self, b: Self, raw: u32)
        ensures
            a == b <==> a.spec_raw() == b.spec_raw(),
            Self::spec_from_raw(raw).spec_raw() == raw,
            Self::spec_from_raw(a.spec_raw()) == a,
    {
    }

    /// Wraps a `MIDIEndpointRef`.
    pub fn from_raw(raw: u32) -> (r: Self)
        ensures
            r == Self::spec_from_raw(raw),
            r.spec_raw() == raw,
    {
        MidiEndpoint { raw }
    }

    /// The wrapped `MIDIEndpointRef`.
    pub fn raw(self) -> (r: u32)
        ensures
            r == self.spec_raw(),
    {
        self.raw
    }
}

/// A reference as the lookup functions return it: 0 means "no object".
pub fn device_from_ref(raw: u32) -> (r: Option<MidiDevice>)
    ensures
        raw == 0 ==> r is None,
        raw != 0 ==> r == Some(MidiDevice::spec_from_raw(raw)),
{
    if raw == 0 { None } else { Some(MidiDevice::from_raw(raw)) }
}

/// A reference as the lookup functions return it: 0 means "no object".
pub fn entity_from_ref(raw: u32) -> (r: Option<MidiEntity>)
    ensures
        raw == 0 ==> r is None,
        raw != 0 ==> r == Some(MidiEntity::spec_from_raw(raw)),
{
    if raw == 0 { None } else { Some(MidiEntity::from_raw(raw)) }
}

/// A reference as the lookup functions return it: 0 means "no object".
pub fn endpoint_from_ref(raw: u32) -> (r: Option<MidiEndpoint>)
    ensures
        raw == 0 ==> r is None,
        raw != 0 ==> r == Some(MidiEndpoint::spec_from_raw(raw)),
{
    if raw == 0 { None } else { Some(MidiEndpoint::from_raw(raw)) }
}

/// Which devices a `MidiDeviceIter` walks.
#[derive(Debug, Clone, Copy, PartialEq, Eq)]
pub enum DeviceIterKind {
    /// The system's devices (`MIDIGetDevice`); an index with no device is
    /// looked up among the external devices.
    SystemDevices,
    /// The external devices (`MIDIGetExternalDevice`).
    ExternalDevices,
}

/// Walks indices `0..count` of the system's devices or external devices.
#[derive(Debug, Clone)]
pub struct MidiDeviceIter {
    kind: DeviceIterKind,
    index: usize,
    count: usize,
}

impl MidiDeviceIter {
    pub closed spec fn spec_kind(&self) -> DeviceIterKind {
        self.kind
    }

    pub closed spec fn spec_index(&self) -> usize {
        self.index
    }

    pub closed spec fn spec_count(&self) -> usize {
        self.count
    }

    /// Which list and index the next device comes from, or `None` once all
    /// `count` have been visited.
    pub fn next_index(&mut self) -> (r: Option<(DeviceIterKind, usize)>)
        ensures
            final(self).spec_count() == old(self).spec_count(),
            final(self).spec_kind() == old(self).spec_kind(),
            old(self).spec_index() < old(self).spec_count() ==> r == Some((old(self).spec_kind(), old(self).spec_index()))
                && final(self).spec_index() == old(self).spec_index() + 1,
            old(self).spec_index() >= old(self).spec_count() ==> r is None && final(self).spec_index()
                == old(self).spec_index(),
    {
        if self.index >= self.count {
            return None;
        }
        let current = self.index;
        self.index = self.index + 1;
        Some((self.kind, current))
    }
}

/// Walks the system's `count` devices (`MIDIGetNumberOfDevices`).
pub fn devices(count: usize) -> (r: MidiDeviceIter)
    ensures
        r.spec_kind() == DeviceIterKind::SystemDevices,
        r.spec_index() == 0,
        r.spec_count() == count,
{
    MidiDeviceIter { kind: DeviceIterKind::SystemDevices, index: 0, count }
}

/// Walks the system's `count` external devices
/// (`MIDIGetNumberOfExternalDevices`).
pub fn external_devices(count: usize) -> (r: MidiDeviceIter)
    ensures
        r.spec_kind() == DeviceIterKind::ExternalDevices,
        r.spec_index() == 0,
        r.spec_count() == count,
{
    MidiDeviceIter { kind: DeviceIterKind::ExternalDevices, index: 0, count }
}

/// Walks indices `0..count` of a device's entities.
#[derive(Debug, Clone)]
pub struct MidiEntityIter {
    device: MidiDevice,
    index: usize,
    count: usize,
}

impl MidiEntityIter {
    pub closed spec fn spec_device(&self) -> MidiDevice {
        self.device
    }

    pub closed spec fn spec_index(&self) -> usize {
        self.index
    }

    pub closed spec fn spec_count(&self) -> usize {
        self.count
    }

    /// The device and index of the next entity to fetch
    /// (`MIDIDeviceGetEntity`), or `None` once all `count` have been visited.
    pub fn next_index(&mut self) -> (r: Option<(MidiDevice, usize)>)
        ensures
            final(self).spec_count() == old(self).spec_count(),
            final(self).spec_device() == old(self).spec_device(),
            old(self).spec_index() < old(self).spec_count() ==> r == Some(
                (old(self).spec_device(), old(self).spec_index()),
            ) && final(self).spec_index() == old(self).spec_index() + 1,
            old(self).spec_index() >= old(self).spec_count() ==> r is None && final(self).spec_index()
                == old(self).spec_index(),
    {
        if self.index >= self.count {
            return None;
        }
        let current = self.index;
        self.index = self.index + 1;
        Some((self.device, current))
    }
}

/// Which endpoints a `MidiEndpointIter` walks.
#[derive(Debug, Clone, Copy, PartialEq, Eq)]
pub enum EndpointIterKind {
    SystemSources,
    SystemDestinations,
    EntitySources(MidiEntity),
    EntityDestinations(MidiEntity),
}

/// Walks indices `0..count` of a list of endpoints.
#[derive(Debug, Clone)]
pub struct MidiEndpointIter {
    kind: EndpointIterKind,
    index: usize,
    count: usize,
}

impl MidiEndpointIter {
    pub closed spec fn spec_kind(&self) -> EndpointIterKind {
        self.kind
    }

    pub closed spec fn spec_index(&self) -> usize {
        self.index
    }

    pub closed spec fn spec_count(&self) -> usize {
        self.count
    }

    /// Which list and index the next endpoint comes from, or `None` once all
    /// `count` have been visited.
    pub fn next_index(&mut self) -> (r: Option<(EndpointIterKind, usize)>)
        ensures
            final(self).spec_count() == old(self).spec_count(),
            final(self).spec_kind() == old(self).spec_kind(),
            old(self).spec_index() < old(self).spec_count() ==> r == Some(
                (old(self).spec_kind(), old(self).spec_index()),
            ) && final(self).spec_index() == old(self).spec_index() + 1,
            old(self).spec_index() >= old(self).spec_count() ==> r is None && final(self).spec_index()
                == old(self).spec_index(),
    {
        if self.index >= self.count {
            return None;
        }
        let current = self.index;
        self.index = self.index + 1;
        Some((self.kind, current))
    }
}

/// Walks the system's `count` sources (`MIDIGetNumberOfSources`).
pub fn sources(count: usize) -> (r: MidiEndpointIter)
    ensures
        r.spec_kind() == EndpointIterKind::SystemSources,
        r.spec_index() == 0,
        r.spec_count() == count,
{
    MidiEndpointIter { kind: EndpointIterKind::SystemSources, index: 0, count }
}

/// Walks the system's `count` destinations (`MIDIGetNumberOfDestinations`).
pub fn destinations(count: usize) -> (r: MidiEndpointIter)
    ensures
        r.spec_kind() == EndpointIterKind::SystemDestinations,
        r.spec_index() == 0,
        r.spec_count() == count,
{
    MidiEndpointIter { kind: EndpointIterKind::SystemDestinations, index: 0, count }
}

/// A virtual source this client created.
#[derive(Debug)]
pub struct VirtualSource {
    raw: u32,
}

impl VirtualSource {
    pub closed spec fn spec_raw(&self) -> u32 {
        self.raw
    }

    /// The source with this endpoint reference.
    pub fn from_raw(raw: u32) -> (r: Self)
        ensures
            r.spec_raw() == raw,
    {
        VirtualSource { raw }
    }

    /// The source as an endpoint.
    pub fn endpoint(&self) -> (r: MidiEndpoint)
        ensures
            r == MidiEndpoint::spec_from_raw(self.spec_raw()),
    {
        MidiEndpoint::from_raw(self.raw)
    }

    /// The wrapped `MIDIEndpointRef`.
    pub fn raw(&self) -> (r: u32)
        ensures
            r == self.spec_raw(),
    {
        self.raw
    }
}

/// A virtual destination this client created.
#[derive(Debug)]
pub struct VirtualDestination {
    raw: u32,
}

impl VirtualDestination {
    pub closed spec fn spec_raw(&self) -> u32 {
        self.raw
    }

    /// The destination with this endpoint reference.
    pub fn from_raw(raw: u32) -> (r: Self)
        ensures
            r.spec_raw() == raw,
    {
        VirtualDestination { raw }
    }

    /// The destination as an endpoint.
    pub fn endpoint(&self) -> (r: MidiEndpoint)
        ensures
            r == MidiEndpoint::spec_from_raw(self.spec_raw()),
    {
        MidiEndpoint::from_raw(self.raw)
    }

    /// The wrapped `MIDIEndpointRef`.
    pub fn raw(&self) -> (r: u32)
        ensures
            r == self.spec_raw(),
    {
        self.raw
    }
}

/// A MIDI 2.0 device identity (`MIDI2DeviceInfo`).
#[derive(Debug, Clone, PartialEq, Eq)]
pub struct Midi2DeviceInfo {
    pub manufacturer_id: [u8; 3],
    pub family: u16,
    pub model_number: u16,
    pub revision_level: [u8; 4],
}

/// A snapshot of a UMP function block.
#[derive(Debug, Clone, PartialEq, Eq)]
pub struct UmpFunctionBlockInfo {
    pub name: String,
    pub function_block_id: u8,
    pub direction: i32,
    pub first_group: u8,
    pub total_groups_spanned: u8,
    pub max_sysex8_streams: u8,
    pub midi1_info: i32,
    pub ui_hint: i32,
    pub is_enabled: bool,
    pub ci_device_muid: Option<u32>,
}

/// A snapshot of a UMP endpoint.
#[derive(Debug, Clone, PartialEq, Eq)]
pub struct UmpEndpointInfo {
    pub name: String,
    pub midi_protocol: i32,
    pub supported_midi_protocols: u8,
    pub midi_destination: u32,
    pub midi_source: u32,
    pub device_info: Midi2DeviceInfo,
    pub product_instance_id: String,
    pub has_static_function_blocks: bool,
    pub has_jrts_receive_capability: bool,
    pub has_jrts_transmit_capability: bool,
    pub endpoint_type: u8,
    pub function_blocks: Vec<UmpFunctionBlockInfo>,
}

/// The notification names and keys of `MIDIUMPEndpointManager`.
#[derive(Debug, Clone, PartialEq, Eq)]
pub struct UmpEndpointManagerConstants {
    pub endpoint_added_notification: String,
    pub endpoint_removed_notification: String,
    pub endpoint_updated_notification: String,
    pub function_block_updated_notification: String,
    pub endpoint_object_key: String,
    pub function_block_object_key: String,
}

/// `MIDIUMPEndpointManager`.
#[derive(Debug, Clone, Copy)]
pub struct UmpEndpointManager;

} // verus!
