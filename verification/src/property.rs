//! Object types, property keys and object lookup results.
use vstd::prelude::*;
use crate::endpoint::{MidiDevice, MidiEndpoint, MidiEntity};

verus! {

/// `MIDIObjectType`, with unknown codes kept as `Unknown`.
#[derive(Debug, Clone, Copy, PartialEq, Eq, Hash)]
pub enum MidiObjectType {
    Other,
    Device,
    Entity,
    Source,
    Destination,
    ExternalDevice,
    ExternalEntity,
    ExternalSource,
    ExternalDestination,
    Unknown(i32),
}

/// The object-type codes CoreMIDI names.
pub open spec fn is_known_object_type(raw: i32) -> bool {
    raw == -1 || (0 <= raw <= 3) || (0x10 <= raw <= 0x13)
}

impl MidiObjectType {
    /// The `MIDIObjectType` code for this value.
    pub open spec fn spec_raw(self) -> i32 {
        match self {
            MidiObjectType::Other => -1i32,
            MidiObjectType::Device => 0i32,
            MidiObjectType::Entity => 1i32,
            MidiObjectType::Source => 2i32,
            MidiObjectType::Destination => 3i32,
            MidiObjectType::ExternalDevice => 0x10i32,
            MidiObjectType::ExternalEntity => 0x11i32,
            MidiObjectType::ExternalSource => 0x12i32,
            MidiObjectType::ExternalDestination => 0x13i32,
            MidiObjectType::Unknown(raw) => raw,
        }
    }

    /// Each case stands for the code the CoreMIDI headers give it.
    pub proof fn lemma_coremidi_codes()
        ensures
            Self::spec_raw(MidiObjectType::Other) == crate::ffi::kMIDIObjectType_Other,
            Self::spec_raw(MidiObjectType::Device) == crate::ffi::kMIDIObjectType_Device,
            Self::spec_raw(MidiObjectType::Entity) == crate::ffi::kMIDIObjectType_Entity,
            Self::spec_raw(MidiObjectType::Source) == crate::ffi::kMIDIObjectType_Source,
            Self::spec_raw(MidiObjectType::Destination) == crate::ffi::kMIDIObjectType_Destination,
            Self::spec_raw(MidiObjectType::ExternalDevice) == crate::ffi::kMIDIObjectType_ExternalDevice,
            Self::spec_raw(MidiObjectType::ExternalEntity) == crate::ffi::kMIDIObjectType_ExternalEntity,
            Self::spec_raw(MidiObjectType::ExternalSource) == crate::ffi::kMIDIObjectType_ExternalSource,
            Self::spec_raw(MidiObjectType::ExternalDestination) == crate::ffi::kMIDIObjectType_ExternalDestination,
    {
    }

    /// Whether the value is in the form `from_raw` produces: a named code is
    /// never carried by `Unknown`.
    pub open spec fn is_canonical(self) -> bool {
        self is Unknown ==> !is_known_object_type(self.spec_raw())
    }

    /// Whether this is one of the external object types.
    pub open spec fn spec_is_external(self) -> bool {
        ||| self is ExternalDevice
        ||| self is ExternalEntity
        ||| self is ExternalSource
        ||| self is ExternalDestination
    }

    /// The type a `MIDIObjectType` code stands for.
    pub open spec fn spec_from_raw(raw: i32) -> Self {
        if raw == -1 {
            MidiObjectType::Other
        } else if raw == 0 {
            MidiObjectType::Device
        } else if raw == 1 {
            MidiObjectType::Entity
        } else if raw == 2 {
            MidiObjectType::Source
        } else if raw == 3 {
            MidiObjectType::Destination
        } else if raw == 0x10 {
            MidiObjectType::ExternalDevice
        } else if raw == 0x11 {
            MidiObjectType::ExternalEntity
        } else if raw == 0x12 {
            MidiObjectType::ExternalSource
        } else if raw == 0x13 {
            MidiObjectType::ExternalDestination
        } else {
            MidiObjectType::Unknown(raw)
        }
    }

    /// Classifies a `MIDIObjectType` code.
    pub fn from_raw(raw: i32) -> (r: Self)
        ensures
            r == Self::spec_from_raw(raw),
            r.spec_raw() == raw,
            (r is Unknown) <==> !is_known_object_type(raw),
    {
        match raw {
            -1 => MidiObjectType::Other,
            0 => MidiObjectType::Device,
            1 => MidiObjectType::Entity,
            2 => MidiObjectType::Source,
            3 => MidiObjectType::Destination,
            0x10 => MidiObjectType::ExternalDevice,
            0x11 => MidiObjectType::ExternalEntity,
            0x12 => MidiObjectType::ExternalSource,
            0x13 => MidiObjectType::ExternalDestination,
            other => MidiObjectType::Unknown(other),
        }
    }

    /// The `MIDIObjectType` code.
    pub fn raw(self) -> (r: i32)
        ensures
            r == self.spec_raw(),
    {
        match self {
            MidiObjectType::Other => -1,
            MidiObjectType::Device => 0,
            MidiObjectType::Entity => 1,
            MidiObjectType::Source => 2,
            MidiObjectType::Destination => 3,
            MidiObjectType::ExternalDevice => 0x10,
            MidiObjectType::ExternalEntity => 0x11,
            MidiObjectType::ExternalSource => 0x12,
            MidiObjectType::ExternalDestination => 0x13,
            MidiObjectType::Unknown(raw) => raw,
        }
    }

    /// Whether this is one of the external object types.
    pub fn is_external(self) -> (r: bool)
        ensures
            r == self.spec_is_external(),
    {
        match self {
            MidiObjectType::ExternalDevice
            | MidiObjectType::ExternalEntity
            | MidiObjectType::ExternalSource
            | MidiObjectType::ExternalDestination => true,
            _ => false,
        }
    }
}

/// Decoding any code and encoding the result gives the code back, and
/// decoding a type's code gives the type, for every type in canonical form.
pub proof fn lemma_object_type_codes(raw: i32, t: MidiObjectType)
    ensures
        MidiObjectType::spec_from_raw(raw).spec_raw() == raw,
        MidiObjectType::spec_from_raw(raw).is_canonical(),
        t.is_canonical() ==> MidiObjectType::spec_from_raw(t.spec_raw()) == t,
{
}

/// A type the headers name (not `Other`, not `Unknown`) is external exactly
/// when its code has `kMIDIObjectType_ExternalMask` set, and each external
/// type's code is its internal counterpart's code with that bit set.
pub proof fn lemma_external_mask(t: MidiObjectType)
    requires
        !(t is Other),
        !(t is Unknown),
    ensures
        t.spec_is_external() <==> (t.spec_raw() & crate::ffi::kMIDIObjectType_ExternalMask) != 0,
        MidiObjectType::ExternalDevice.spec_raw() == (MidiObjectType::Device.spec_raw() | crate::ffi::kMIDIObjectType_ExternalMask),
        MidiObjectType::ExternalEntity.spec_raw() == (MidiObjectType::Entity.spec_raw() | crate::ffi::kMIDIObjectType_ExternalMask),
        MidiObjectType::ExternalSource.spec_raw() == (MidiObjectType::Source.spec_raw() | crate::ffi::kMIDIObjectType_ExternalMask),
        MidiObjectType::ExternalDestination.spec_raw() == (MidiObjectType::Destination.spec_raw() | crate::ffi::kMIDIObjectType_ExternalMask),
{
    assert({
        &&& (0i32 & 0x10i32) == 0i32
        &&& (1i32 & 0x10i32) == 0i32
        &&& (2i32 & 0x10i32) == 0i32
        &&& (3i32 & 0x10i32) == 0i32
        &&& (0x10i32 & 0x10i32) != 0i32
        &&& (0x11i32 & 0x10i32) != 0i32
        &&& (0x12i32 & 0x10i32) != 0i32
        &&& (0x13i32 & 0x10i32) != 0i32
        &&& (0i32 | 0x10i32) == 0x10i32
        &&& (1i32 | 0x10i32) == 0x11i32
        &&& (2i32 | 0x10i32) == 0x12i32
        &&& (3i32 | 0x10i32) == 0x13i32
    }) by (bit_vector);
}

/// Two object types in canonical form with the same code are the same type,
/// so classifying a type's code gives the type back.
pub proof fn lemma_object_type_roundtrip(a: MidiObjectType, b: MidiObjectType)
    requires
        a.is_canonical(),
        b.is_canonical(),
        a.spec_raw() == b.spec_raw(),
    ensures
        a == b,
{
}

/// The object that `MIDIObjectFindByUniqueID` found, typed by its kind.
#[derive(Debug, Clone, Copy, PartialEq, Eq, Hash)]
pub enum ResolvedMidiObject {
    Device(MidiDevice),
    Entity(MidiEntity),
    Endpoint(MidiEndpoint),
    Other { raw: u32, object_type: MidiObjectType },
}

/// Types a found object by the object type CoreMIDI reported for it:
/// devices (external ones too) as devices, entities as entities, sources
/// and destinations as endpoints, anything else as `Other`.
pub fn resolve_object(object: u32, object_type: i32) -> (r: ResolvedMidiObject)
    ensures
        (object_type == 0 || object_type == 0x10) ==> r == ResolvedMidiObject::Device(
            MidiDevice::spec_from_raw(object),
        ),
        (object_type == 1 || object_type == 0x11) ==> r == ResolvedMidiObject::Entity(
            MidiEntity::spec_from_raw(object),
        ),
        (object_type == 2 || object_type == 3 || object_type == 0x12 || object_type == 0x13) ==> r
            == ResolvedMidiObject::Endpoint(MidiEndpoint::spec_from_raw(object)),
        !(0 <= object_type <= 3 || 0x10 <= object_type <= 0x13) ==> (r matches ResolvedMidiObject::Other {
            raw,
            object_type: t,
        } && raw == object && t.spec_raw() == object_type && t.is_canonical()),
{
    match MidiObjectType::from_raw(object_type) {
        MidiObjectType::Device | MidiObjectType::ExternalDevice => ResolvedMidiObject::Device(
            MidiDevice::from_raw(object),
        ),
        MidiObjectType::Entity | MidiObjectType::ExternalEntity => ResolvedMidiObject::Entity(
            MidiEntity::from_raw(object),
        ),
        MidiObjectType::Source
        | MidiObjectType::Destination
        | MidiObjectType::ExternalSource
        | MidiObjectType::ExternalDestination => ResolvedMidiObject::Endpoint(
            MidiEndpoint::from_raw(object),
        ),
        other => ResolvedMidiObject::Other { raw: object, object_type: other },
    }
}

/// A CoreMIDI property key, known by the name of the `CFStringRef` constant
/// that CoreMIDI exports for it.
#[derive(Debug, Clone, Copy, PartialEq, Eq, Hash)]
pub struct MidiProperty {
    symbol: &'static str,
}

impl MidiProperty {
    /// The name of the key's CoreMIDI constant.
    pub closed spec fn spec_symbol(self) -> &'static str {
        self.symbol
    }

    /// The name of the key's CoreMIDI constant, such as `kMIDIPropertyName`.
    pub fn as_raw(self) -> (r: &'static str)
        ensures
            r == self.spec_symbol(),
    {
        self.symbol
    }

    /// `kMIDIPropertyName`.
    pub fn name() -> (r: Self)
        ensures
            r.spec_symbol() == "kMIDIPropertyName",
    {
        MidiProperty { symbol: "kMIDIPropertyName" }
    }

    /// `kMIDIPropertyManufacturer`.
    pub fn manufacturer() -> (r: Self)
        ensures
            r.spec_symbol() == "kMIDIPropertyManufacturer",
    {
        MidiProperty { symbol: "kMIDIPropertyManufacturer" }
    }

    /// `kMIDIPropertyModel`.
    pub fn model() -> (r: Self)
        ensures
            r.spec_symbol() == "kMIDIPropertyModel",
    {
        MidiProperty { symbol: "kMIDIPropertyModel" }
    }

    /// `kMIDIPropertyUniqueID`.
    pub fn unique_id() -> (r: Self)
        ensures
            r.spec_symbol() == "kMIDIPropertyUniqueID",
    {
        MidiProperty { symbol: "kMIDIPropertyUniqueID" }
    }

    /// `kMIDIPropertyDeviceID`.
    pub fn device_id() -> (r: Self)
        ensures
            r.spec_symbol() == "kMIDIPropertyDeviceID",
    {
        MidiProperty { symbol: "kMIDIPropertyDeviceID" }
    }

    /// `kMIDIPropertyReceiveChannels`.
    pub fn receive_channels() -> (r: Self)
        ensures
            r.spec_symbol() == "kMIDIPropertyReceiveChannels",
    {
        MidiProperty { symbol: "kMIDIPropertyReceiveChannels" }
    }

    /// `kMIDIPropertyTransmitChannels`.
    pub fn transmit_channels() -> (r: Self)
        ensures
            r.spec_symbol() == "kMIDIPropertyTransmitChannels",
    {
        MidiProperty { symbol: "kMIDIPropertyTransmitChannels" }
    }

    /// `kMIDIPropertyMaxSysExSpeed`.
    pub fn max_sysex_speed() -> (r: Self)
        ensures
            r.spec_symbol() == "kMIDIPropertyMaxSysExSpeed",
    {
        MidiProperty { symbol: "kMIDIPropertyMaxSysExSpeed" }
    }

    /// `kMIDIPropertyAdvanceScheduleTimeMuSec`.
    pub fn advance_schedule_time_usec() -> (r: Self)
        ensures
            r.spec_symbol() == "kMIDIPropertyAdvanceScheduleTimeMuSec",
    {
        MidiProperty { symbol: "kMIDIPropertyAdvanceScheduleTimeMuSec" }
    }

    /// `kMIDIPropertyIsEmbeddedEntity`.
    pub fn is_embedded_entity() -> (r: Self)
        ensures
            r.spec_symbol() == "kMIDIPropertyIsEmbeddedEntity",
    {
        MidiProperty { symbol: "kMIDIPropertyIsEmbeddedEntity" }
    }

    /// `kMIDIPropertyIsBroadcast`.
    pub fn is_broadcast() -> (r: Self)
        ensures
            r.spec_symbol() == "kMIDIPropertyIsBroadcast",
    {
        MidiProperty { symbol: "kMIDIPropertyIsBroadcast" }
    }

    /// `kMIDIPropertySingleRealtimeEntity`.
    pub fn single_realtime_entity() -> (r: Self)
        ensures
            r.spec_symbol() == "kMIDIPropertySingleRealtimeEntity",
    {
        MidiProperty { symbol: "kMIDIPropertySingleRealtimeEntity" }
    }

    /// `kMIDIPropertyConnectionUniqueID`.
    pub fn connection_unique_id() -> (r: Self)
        ensures
            r.spec_symbol() == "kMIDIPropertyConnectionUniqueID",
    {
        MidiProperty { symbol: "kMIDIPropertyConnectionUniqueID" }
    }

    /// `kMIDIPropertyOffline`.
    pub fn offline() -> (r: Self)
        ensures
            r.spec_symbol() == "kMIDIPropertyOffline",
    {
        MidiProperty { symbol: "kMIDIPropertyOffline" }
    }

    /// `kMIDIPropertyPrivate`.
    pub fn private() -> (r: Self)
        ensures
            r.spec_symbol() == "kMIDIPropertyPrivate",
    {
        MidiProperty { symbol: "kMIDIPropertyPrivate" }
    }

    /// `kMIDIPropertyDriverOwner`.
    pub fn driver_owner() -> (r: Self)
        ensures
            r.spec_symbol() == "kMIDIPropertyDriverOwner",
    {
        MidiProperty { symbol: "kMIDIPropertyDriverOwner" }
    }

    /// `kMIDIPropertyFactoryPatchNameFile`.
    pub fn factory_patch_name_file() -> (r: Self)
        ensures
            r.spec_symbol() == "kMIDIPropertyFactoryPatchNameFile",
    {
        MidiProperty { symbol: "kMIDIPropertyFactoryPatchNameFile" }
    }

    /// `kMIDIPropertyUserPatchNameFile`.
    pub fn user_patch_name_file() -> (r: Self)
        ensures
            r.spec_symbol() == "kMIDIPropertyUserPatchNameFile",
    {
        MidiProperty { symbol: "kMIDIPropertyUserPatchNameFile" }
    }

    /// `kMIDIPropertyNameConfiguration`.
    pub fn name_configuration() -> (r: Self)
        ensures
            r.spec_symbol() == "kMIDIPropertyNameConfiguration",
    {
        MidiProperty { symbol: "kMIDIPropertyNameConfiguration" }
    }

    /// `kMIDIPropertyNameConfigurationDictionary`.
    pub fn name_configuration_dictionary() -> (r: Self)
        ensures
            r.spec_symbol() == "kMIDIPropertyNameConfigurationDictionary",
    {
        MidiProperty { symbol: "kMIDIPropertyNameConfigurationDictionary" }
    }

    /// `kMIDIPropertyImage`.
    pub fn image() -> (r: Self)
        ensures
            r.spec_symbol() == "kMIDIPropertyImage",
    {
        MidiProperty { symbol: "kMIDIPropertyImage" }
    }

    /// `kMIDIPropertyDriverVersion`.
    pub fn driver_version() -> (r: Self)
        ensures
            r.spec_symbol() == "kMIDIPropertyDriverVersion",
    {
        MidiProperty { symbol: "kMIDIPropertyDriverVersion" }
    }

    /// `kMIDIPropertySupportsGeneralMIDI`.
    pub fn supports_general_midi() -> (r: Self)
        ensures
            r.spec_symbol() == "kMIDIPropertySupportsGeneralMIDI",
    {
        MidiProperty { symbol: "kMIDIPropertySupportsGeneralMIDI" }
    }

    /// `kMIDIPropertySupportsMMC`.
    pub fn supports_mmc() -> (r: Self)
        ensures
            r.spec_symbol() == "kMIDIPropertySupportsMMC",
    {
        MidiProperty { symbol: "kMIDIPropertySupportsMMC" }
    }

    /// `kMIDIPropertyCanRoute`.
    pub fn can_route() -> (r: Self)
        ensures
            r.spec_symbol() == "kMIDIPropertyCanRoute",
    {
        MidiProperty { symbol: "kMIDIPropertyCanRoute" }
    }

    /// `kMIDIPropertyReceivesClock`.
    pub fn receives_clock() -> (r: Self)
        ensures
            r.spec_symbol() == "kMIDIPropertyReceivesClock",
    {
        MidiProperty { symbol: "kMIDIPropertyReceivesClock" }
    }

    /// `kMIDIPropertyReceivesMTC`.
    pub fn receives_mtc() -> (r: Self)
        ensures
            r.spec_symbol() == "kMIDIPropertyReceivesMTC",
    {
        MidiProperty { symbol: "kMIDIPropertyReceivesMTC" }
    }

    /// `kMIDIPropertyReceivesNotes`.
    pub fn receives_notes() -> (r: Self)
        ensures
            r.spec_symbol() == "kMIDIPropertyReceivesNotes",
    {
        MidiProperty { symbol: "kMIDIPropertyReceivesNotes" }
    }

    /// `kMIDIPropertyReceivesProgramChanges`.
    pub fn receives_program_changes() -> (r: Self)
        ensures
            r.spec_symbol() == "kMIDIPropertyReceivesProgramChanges",
    {
        MidiProperty { symbol: "kMIDIPropertyReceivesProgramChanges" }
    }

    /// `kMIDIPropertyReceivesBankSelectMSB`.
    pub fn receives_bank_select_msb() -> (r: Self)
        ensures
            r.spec_symbol() == "kMIDIPropertyReceivesBankSelectMSB",
    {
        MidiProperty { symbol: "kMIDIPropertyReceivesBankSelectMSB" }
    }

    /// `kMIDIPropertyReceivesBankSelectLSB`.
    pub fn receives_bank_select_lsb() -> (r: Self)
        ensures
            r.spec_symbol() == "kMIDIPropertyReceivesBankSelectLSB",
    {
        MidiProperty { symbol: "kMIDIPropertyReceivesBankSelectLSB" }
    }

    /// `kMIDIPropertyTransmitsClock`.
    pub fn transmits_clock() -> (r: Self)
        ensures
            r.spec_symbol() == "kMIDIPropertyTransmitsClock",
    {
        MidiProperty { symbol: "kMIDIPropertyTransmitsClock" }
    }

    /// `kMIDIPropertyTransmitsMTC`.
    pub fn transmits_mtc() -> (r: Self)
        ensures
            r.spec_symbol() == "kMIDIPropertyTransmitsMTC",
    {
        MidiProperty { symbol: "kMIDIPropertyTransmitsMTC" }
    }

    /// `kMIDIPropertyTransmitsNotes`.
    pub fn transmits_notes() -> (r: Self)
        ensures
            r.spec_symbol() == "kMIDIPropertyTransmitsNotes",
    {
        MidiProperty { symbol: "kMIDIPropertyTransmitsNotes" }
    }

    /// `kMIDIPropertyTransmitsProgramChanges`.
    pub fn transmits_program_changes() -> (r: Self)
        ensures
            r.spec_symbol() == "kMIDIPropertyTransmitsProgramChanges",
    {
        MidiProperty { symbol: "kMIDIPropertyTransmitsProgramChanges" }
    }

    /// `kMIDIPropertyTransmitsBankSelectMSB`.
    pub fn transmits_bank_select_msb() -> (r: Self)
        ensures
            r.spec_symbol() == "kMIDIPropertyTransmitsBankSelectMSB",
    {
        MidiProperty { symbol: "kMIDIPropertyTransmitsBankSelectMSB" }
    }

    /// `kMIDIPropertyTransmitsBankSelectLSB`.
    pub fn transmits_bank_select_lsb() -> (r: Self)
        ensures
            r.spec_symbol() == "kMIDIPropertyTransmitsBankSelectLSB",
    {
        MidiProperty { symbol: "kMIDIPropertyTransmitsBankSelectLSB" }
    }

    /// `kMIDIPropertyPanDisruptsStereo`.
    pub fn pan_disrupts_stereo() -> (r: Self)
        ensures
            r.spec_symbol() == "kMIDIPropertyPanDisruptsStereo",
    {
        MidiProperty { symbol: "kMIDIPropertyPanDisruptsStereo" }
    }

    /// `kMIDIPropertyIsSampler`.
    pub fn is_sampler() -> (r: Self)
        ensures
            r.spec_symbol() == "kMIDIPropertyIsSampler",
    {
        MidiProperty { symbol: "kMIDIPropertyIsSampler" }
    }

    /// `kMIDIPropertyIsDrumMachine`.
    pub fn is_drum_machine() -> (r: Self)
        ensures
            r.spec_symbol() == "kMIDIPropertyIsDrumMachine",
    {
        MidiProperty { symbol: "kMIDIPropertyIsDrumMachine" }
    }

    /// `kMIDIPropertyIsMixer`.
    pub fn is_mixer() -> (r: Self)
        ensures
            r.spec_symbol() == "kMIDIPropertyIsMixer",
    {
        MidiProperty { symbol: "kMIDIPropertyIsMixer" }
    }

    /// `kMIDIPropertyIsEffectUnit`.
    pub fn is_effect_unit() -> (r: Self)
        ensures
            r.spec_symbol() == "kMIDIPropertyIsEffectUnit",
    {
        MidiProperty { symbol: "kMIDIPropertyIsEffectUnit" }
    }

    /// `kMIDIPropertyMaxReceiveChannels`.
    pub fn max_receive_channels() -> (r: Self)
        ensures
            r.spec_symbol() == "kMIDIPropertyMaxReceiveChannels",
    {
        MidiProperty { symbol: "kMIDIPropertyMaxReceiveChannels" }
    }

    /// `kMIDIPropertyMaxTransmitChannels`.
    pub fn max_transmit_channels() -> (r: Self)
        ensures
            r.spec_symbol() == "kMIDIPropertyMaxTransmitChannels",
    {
        MidiProperty { symbol: "kMIDIPropertyMaxTransmitChannels" }
    }

    /// `kMIDIPropertyDriverDeviceEditorApp`.
    pub fn driver_device_editor_app() -> (r: Self)
        ensures
            r.spec_symbol() == "kMIDIPropertyDriverDeviceEditorApp",
    {
        MidiProperty { symbol: "kMIDIPropertyDriverDeviceEditorApp" }
    }

    /// `kMIDIPropertySupportsShowControl`.
    pub fn supports_show_control() -> (r: Self)
        ensures
            r.spec_symbol() == "kMIDIPropertySupportsShowControl",
    {
        MidiProperty { symbol: "kMIDIPropertySupportsShowControl" }
    }

    /// `kMIDIPropertyDisplayName`.
    pub fn display_name() -> (r: Self)
        ensures
            r.spec_symbol() == "kMIDIPropertyDisplayName",
    {
        MidiProperty { symbol: "kMIDIPropertyDisplayName" }
    }

    /// `kMIDIPropertyProtocolID`.
    pub fn protocol_id() -> (r: Self)
        ensures
            r.spec_symbol() == "kMIDIPropertyProtocolID",
    {
        MidiProperty { symbol: "kMIDIPropertyProtocolID" }
    }

    /// `kMIDIPropertyUMPActiveGroupBitmap`.
    pub fn ump_active_group_bitmap() -> (r: Self)
        ensures
            r.spec_symbol() == "kMIDIPropertyUMPActiveGroupBitmap",
    {
        MidiProperty { symbol: "kMIDIPropertyUMPActiveGroupBitmap" }
    }

    /// `kMIDIPropertyUMPCanTransmitGroupless`.
    pub fn ump_can_transmit_groupless() -> (r: Self)
        ensures
            r.spec_symbol() == "kMIDIPropertyUMPCanTransmitGroupless",
    {
        MidiProperty { symbol: "kMIDIPropertyUMPCanTransmitGroupless" }
    }

    /// `kMIDIPropertyAssociatedEndpoint`.
    pub fn associated_endpoint() -> (r: Self)
        ensures
            r.spec_symbol() == "kMIDIPropertyAssociatedEndpoint",
    {
        MidiProperty { symbol: "kMIDIPropertyAssociatedEndpoint" }
    }

    /// `kMIDIDriverPropertyUsesSerial`.
    pub fn driver_uses_serial() -> (r: Self)
        ensures
            r.spec_symbol() == "kMIDIDriverPropertyUsesSerial",
    {
        MidiProperty { symbol: "kMIDIDriverPropertyUsesSerial" }
    }
}

} // verus!
