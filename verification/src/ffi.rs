//! Plain mirrors of the CoreMIDI C types and constants that the library's
//! values convert to and from.
#![allow(non_camel_case_types, non_snake_case, non_upper_case_globals)]
use vstd::prelude::*;

verus! {

pub type OSStatus = i32;
pub type MIDITimeStamp = u64;
pub type MIDIObjectRef = u32;
pub type MIDIClientRef = u32;
pub type MIDIPortRef = u32;
pub type MIDIDeviceRef = u32;
pub type MIDIEntityRef = u32;
pub type MIDIEndpointRef = u32;
pub type MIDIThruConnectionRef = u32;
pub type MIDIProtocolID = i32;
pub type MIDIObjectType = i32;
pub type MIDIUniqueID = i32;

pub const noErr: OSStatus = 0;
pub const kMIDIThruConnection_MaxEndpoints: usize = 8;

/// `MIDINotification`: the header every notification starts with.
#[derive(Debug, Clone, Copy)]
pub struct MIDINotification {
    pub messageID: i32,
    pub messageSize: u32,
}

/// `MIDIObjectAddRemoveNotification`.
#[derive(Debug, Clone, Copy)]
pub struct MIDIObjectAddRemoveNotification {
    pub messageID: i32,
    pub messageSize: u32,
    pub parent: MIDIObjectRef,
    pub parentType: MIDIObjectType,
    pub child: MIDIObjectRef,
    pub childType: MIDIObjectType,
}

/// `MIDIIOErrorNotification`.
#[derive(Debug, Clone, Copy)]
pub struct MIDIIOErrorNotification {
    pub messageID: i32,
    pub messageSize: u32,
    pub driverDevice: MIDIDeviceRef,
    pub errorCode: OSStatus,
}

/// `MIDIEventPacket` in its fixed-size form.
#[derive(Clone, Copy)]
pub struct MIDIEventPacket {
    pub timeStamp: MIDITimeStamp,
    pub wordCount: u32,
    pub words: [u32; 64],
}

/// `MIDIEventList` in its fixed-size form.
#[derive(Clone, Copy)]
pub struct MIDIEventList {
    pub protocol: MIDIProtocolID,
    pub numPackets: u32,
    pub packet: [MIDIEventPacket; 1],
}

/// `MIDIPacket` in its fixed-size form.
#[derive(Clone, Copy)]
pub struct MIDIPacket {
    pub timeStamp: MIDITimeStamp,
    pub length: u16,
    pub data: [u8; 256],
}

/// `MIDIPacketList` in its fixed-size form.
#[derive(Clone, Copy)]
pub struct MIDIPacketList {
    pub numPackets: u32,
    pub packet: [MIDIPacket; 1],
}

/// `MIDIUniversalMessage` as its raw words.
#[derive(Debug, Clone, Copy, PartialEq, Eq, Hash)]
pub struct MIDIUniversalMessage {
    pub raw_words: [u32; 6],
}

/// `MIDIMessage_64`.
#[derive(Debug, Clone, Copy, PartialEq, Eq, Hash)]
pub struct MIDIMessage_64 {
    pub word0: u32,
    pub word1: u32,
}

/// `MIDIMessage_96`.
#[derive(Debug, Clone, Copy, PartialEq, Eq, Hash)]
pub struct MIDIMessage_96 {
    pub word0: u32,
    pub word1: u32,
    pub word2: u32,
}

/// `MIDIMessage_128`.
#[derive(Debug, Clone, Copy, PartialEq, Eq, Hash)]
pub struct MIDIMessage_128 {
    pub word0: u32,
    pub word1: u32,
    pub word2: u32,
    pub word3: u32,
}

/// `MIDIValueMap`.
#[derive(Debug, Clone, Copy, PartialEq, Eq, Hash)]
pub struct MIDIValueMap {
    pub value: [u8; 128],
}

/// `MIDITransform`.
#[derive(Debug, Clone, Copy, PartialEq, Eq, Hash)]
pub struct MIDITransform {
    pub transform: u16,
    pub param: i16,
}

/// `MIDIControlTransform`.
#[derive(Debug, Clone, Copy, PartialEq, Eq, Hash)]
pub struct MIDIControlTransform {
    pub controlType: u8,
    pub remappedControlType: u8,
    pub controlNumber: u16,
    pub transform: u16,
    pub param: i16,
}

/// `MIDIThruConnectionEndpoint`.
#[derive(Debug, Clone, Copy, PartialEq, Eq, Hash)]
pub struct MIDIThruConnectionEndpoint {
    pub endpointRef: MIDIEndpointRef,
    pub uniqueID: MIDIUniqueID,
}

/// `MIDIThruConnectionParams`, the fixed part of a thru-connection
/// parameter blob.
#[derive(Debug, Clone, Copy, PartialEq, Eq, Hash)]
pub struct MIDIThruConnectionParams {
    pub version: u32,
    pub numSources: u32,
    pub sources: [MIDIThruConnectionEndpoint; 8],
    pub numDestinations: u32,
    pub destinations: [MIDIThruConnectionEndpoint; 8],
    pub channelMap: [u8; 16],
    pub lowVelocity: u8,
    pub highVelocity: u8,
    pub lowNote: u8,
    pub highNote: u8,
    pub noteNumber: MIDITransform,
    pub velocity: MIDITransform,
    pub keyPressure: MIDITransform,
    pub channelPressure: MIDITransform,
    pub programChange: MIDITransform,
    pub pitchBend: MIDITransform,
    pub filterOutSysEx: u8,
    pub filterOutMTC: u8,
    pub filterOutBeatClock: u8,
    pub filterOutTuneRequest: u8,
    pub reserved2: [u8; 3],
    pub filterOutAllControls: u8,
    pub numControlTransforms: u16,
    pub numMaps: u16,
    pub reserved3: [u16; 4],
}

/// `MIDI2DeviceManufacturer`.
#[derive(Debug, Clone, Copy, PartialEq, Eq, Hash)]
pub struct MIDI2DeviceManufacturer {
    pub sysExIDByte: [u8; 3],
}

/// `MIDI2DeviceRevisionLevel`.
#[derive(Debug, Clone, Copy, PartialEq, Eq, Hash)]
pub struct MIDI2DeviceRevisionLevel {
    pub revisionLevel: [u8; 4],
}

/// `MIDICIProfileIDStandard`.
#[derive(Debug, Clone, Copy, PartialEq, Eq, Hash)]
pub struct MIDICIProfileIDStandard {
    pub profileIDByte1: u8,
    pub profileBank: u8,
    pub profileNumber: u8,
    pub profileVersion: u8,
    pub profileLevel: u8,
}

/// `MIDICIProfileIDManufacturerSpecific`.
#[derive(Debug, Clone, Copy, PartialEq, Eq, Hash)]
pub struct MIDICIProfileIDManufacturerSpecific {
    pub sysExID1: u8,
    pub sysExID2: u8,
    pub sysExID3: u8,
    pub info1: u8,
    pub info2: u8,
}

/// `MIDIDriverInterface`, known only by reference.
pub struct MIDIDriverInterface {
    _private: [u8; 0],
}

/// `sizeof(MIDIThruConnectionParams)`.
pub const THRU_PARAMS_SIZE: usize = 204;
/// `sizeof(MIDIControlTransform)`.
pub const CONTROL_TRANSFORM_SIZE: usize = 8;
/// `sizeof(MIDIValueMap)`.
pub const VALUE_MAP_SIZE: usize = 128;

/// `MIDIThruConnectionParamsSize`: the fixed part plus the control
/// transforms and value maps that follow it.
pub fn MIDIThruConnectionParamsSize(params: &MIDIThruConnectionParams) -> (r: usize)
    ensures
        r == THRU_PARAMS_SIZE + params.numControlTransforms * CONTROL_TRANSFORM_SIZE
            + params.numMaps * VALUE_MAP_SIZE,
{
    THRU_PARAMS_SIZE + params.numControlTransforms as usize * CONTROL_TRANSFORM_SIZE
        + params.numMaps as usize * VALUE_MAP_SIZE
}

// ---------------------------------------------------------------------------
// Codes
/// `CiProfileMessageType` codes, as the CoreMIDI headers define them.
pub const kMIDICIProfileMessageTypeProfileInquiry: u8 = 0x20;
pub const kMIDICIProfileMessageTypeReplyToProfileInquiry: u8 = 0x21;
pub const kMIDICIProfileMessageTypeSetProfileOn: u8 = 0x22;
pub const kMIDICIProfileMessageTypeSetProfileOff: u8 = 0x23;
pub const kMIDICIProfileMessageTypeProfileEnabledReport: u8 = 0x24;
pub const kMIDICIProfileMessageTypeProfileDisabledReport: u8 = 0x25;
pub const kMIDICIProfileMessageTypeProfileAdded: u8 = 0x26;
pub const kMIDICIProfileMessageTypeProfileRemoved: u8 = 0x27;
pub const kMIDICIProfileMessageTypeDetailsInquiry: u8 = 0x28;
pub const kMIDICIProfileMessageTypeReplyToDetailsInquiry: u8 = 0x29;
pub const kMIDICIProfileMessageTypeProfileSpecificData: u8 = 0x2F;

/// `CiPropertyExchangeMessageType` codes, as the CoreMIDI headers define them.
pub const kMIDICIPropertyExchangeMessageTypeInquiryPropertyExchangeCapabilities: u8 = 0x30;
pub const kMIDICIPropertyExchangeMessageTypeReplyToPropertyExchangeCapabilities: u8 = 0x31;
pub const kMIDICIPropertyExchangeMessageTypeInquiryHasPropertyDataReserved: u8 = 0x32;
pub const kMIDICIPropertyExchangeMessageTypeInquiryReplyToHasPropertyDataReserved: u8 = 0x33;
pub const kMIDICIPropertyExchangeMessageTypeInquiryGetPropertyData: u8 = 0x34;
pub const kMIDICIPropertyExchangeMessageTypeReplyToGetProperty: u8 = 0x35;
pub const kMIDICIPropertyExchangeMessageTypeInquirySetPropertyData: u8 = 0x36;
pub const kMIDICIPropertyExchangeMessageTypeReplyToSetPropertyData: u8 = 0x37;
pub const kMIDICIPropertyExchangeMessageTypeSubscription: u8 = 0x38;
pub const kMIDICIPropertyExchangeMessageTypeReplyToSubscription: u8 = 0x39;
pub const kMIDICIPropertyExchangeMessageTypeNotify: u8 = 0x3F;

/// `CiProcessInquiryMessageType` codes, as the CoreMIDI headers define them.
pub const kMIDICIProcessInquiryMessageTypeInquiryProcessInquiryCapabilities: u8 = 0x40;
pub const kMIDICIProcessInquiryMessageTypeReplyToProcessInquiryCapabilities: u8 = 0x41;
pub const kMIDICIProcessInquiryMessageTypeInquiryMidiMessageReport: u8 = 0x42;
pub const kMIDICIProcessInquiryMessageTypeReplyToMidiMessageReport: u8 = 0x43;
pub const kMIDICIProcessInquiryMessageTypeEndOfMidiMessageReport: u8 = 0x44;

/// `CiManagementMessageType` codes, as the CoreMIDI headers define them.
pub const kMIDICIManagementMessageTypeDiscovery: u8 = 0x70;
pub const kMIDICIManagementMessageTypeReplyToDiscovery: u8 = 0x71;
pub const kMIDICIManagementMessageTypeInquiryEndpointInformation: u8 = 0x72;
pub const kMIDICIManagementMessageTypeReplyToEndpointInformation: u8 = 0x73;
pub const kMIDICIManagementMessageTypeMidiCiAck: u8 = 0x7D;
pub const kMIDICIManagementMessageTypeInvalidateMuid: u8 = 0x7E;
pub const kMIDICIManagementMessageTypeMidiCiNak: u8 = 0x7F;

/// `MidiMessageType` codes, as the CoreMIDI headers define them.
pub const kMIDIMessageTypeUtility: u32 = 0x0;
pub const kMIDIMessageTypeSystem: u32 = 0x1;
pub const kMIDIMessageTypeChannelVoice1: u32 = 0x2;
pub const kMIDIMessageTypeSysEx: u32 = 0x3;
pub const kMIDIMessageTypeChannelVoice2: u32 = 0x4;
pub const kMIDIMessageTypeData128: u32 = 0x5;
pub const kMIDIMessageTypeFlexData: u32 = 0xD;
pub const kMIDIMessageTypeStream: u32 = 0xF;
pub const kMIDIMessageTypeInvalid: u32 = 0xFF;

/// `MidiCvStatus` codes, as the CoreMIDI headers define them.
pub const kMIDICVStatusNoteOff: u32 = 0x8;
pub const kMIDICVStatusNoteOn: u32 = 0x9;
pub const kMIDICVStatusPolyPressure: u32 = 0xA;
pub const kMIDICVStatusControlChange: u32 = 0xB;
pub const kMIDICVStatusProgramChange: u32 = 0xC;
pub const kMIDICVStatusChannelPressure: u32 = 0xD;
pub const kMIDICVStatusPitchBend: u32 = 0xE;
pub const kMIDICVStatusRegisteredPnc: u32 = 0x0;
pub const kMIDICVStatusAssignablePnc: u32 = 0x1;
pub const kMIDICVStatusRegisteredControl: u32 = 0x2;
pub const kMIDICVStatusAssignableControl: u32 = 0x3;
pub const kMIDICVStatusRelRegisteredControl: u32 = 0x4;
pub const kMIDICVStatusRelAssignableControl: u32 = 0x5;
pub const kMIDICVStatusPerNotePitchBend: u32 = 0x6;
pub const kMIDICVStatusPerNoteMgmt: u32 = 0xF;

/// `MidiSystemStatus` codes, as the CoreMIDI headers define them.
pub const kMIDIStatusStartOfExclusive: u32 = 0xF0;
pub const kMIDIStatusEndOfExclusive: u32 = 0xF7;
pub const kMIDIStatusMtc: u32 = 0xF1;
pub const kMIDIStatusSongPosPointer: u32 = 0xF2;
pub const kMIDIStatusSongSelect: u32 = 0xF3;
pub const kMIDIStatusTuneRequest: u32 = 0xF6;
pub const kMIDIStatusTimingClock: u32 = 0xF8;
pub const kMIDIStatusStart: u32 = 0xFA;
pub const kMIDIStatusContinue: u32 = 0xFB;
pub const kMIDIStatusStop: u32 = 0xFC;
pub const kMIDIStatusActiveSensing: u32 = 0xFE;
pub const kMIDIStatusSystemReset: u32 = 0xFF;

/// `MidiSysExStatus` codes, as the CoreMIDI headers define them.
pub const kMIDISysExStatusComplete: u32 = 0x0;
pub const kMIDISysExStatusStart: u32 = 0x1;
pub const kMIDISysExStatusContinue: u32 = 0x2;
pub const kMIDISysExStatusEnd: u32 = 0x3;
pub const kMIDISysExStatusMixedDataSetHeader: u32 = 0x8;
pub const kMIDISysExStatusMixedDataSetPayload: u32 = 0x9;

/// `MidiUtilityStatus` codes, as the CoreMIDI headers define them.
pub const kMIDIUtilityStatusNoop: u32 = 0x0;
pub const kMIDIUtilityStatusJitterReductionClock: u32 = 0x1;
pub const kMIDIUtilityStatusJitterReductionTimestamp: u32 = 0x2;
pub const kMIDIUtilityStatusDeltaClockstampTicksPerQuarterNote: u32 = 0x3;
pub const kMIDIUtilityStatusTicksSinceLastEvent: u32 = 0x4;

/// `UmpStreamMessageStatus` codes, as the CoreMIDI headers define them.
pub const kMIDIUMPStreamMessageStatusEndpointDiscovery: u32 = 0x00;
pub const kMIDIUMPStreamMessageStatusEndpointInfoNotification: u32 = 0x01;
pub const kMIDIUMPStreamMessageStatusDeviceIdentityNotification: u32 = 0x02;
pub const kMIDIUMPStreamMessageStatusEndpointNameNotification: u32 = 0x03;
pub const kMIDIUMPStreamMessageStatusProductInstanceIdNotification: u32 = 0x04;
pub const kMIDIUMPStreamMessageStatusStreamConfigurationRequest: u32 = 0x05;
pub const kMIDIUMPStreamMessageStatusStreamConfigurationNotification: u32 = 0x06;
pub const kMIDIUMPStreamMessageStatusFunctionBlockDiscovery: u32 = 0x10;
pub const kMIDIUMPStreamMessageStatusFunctionBlockInfoNotification: u32 = 0x11;
pub const kMIDIUMPStreamMessageStatusFunctionBlockNameNotification: u32 = 0x12;
pub const kMIDIUMPStreamMessageStatusStartOfClip: u32 = 0x20;
pub const kMIDIUMPStreamMessageStatusEndOfClip: u32 = 0x21;

/// `UmpStreamMessageFormat` codes, as the CoreMIDI headers define them.
pub const kMIDIUMPStreamMessageFormatComplete: u8 = 0x00;
pub const kMIDIUMPStreamMessageFormatStart: u8 = 0x01;
pub const kMIDIUMPStreamMessageFormatContinuing: u8 = 0x02;
pub const kMIDIUMPStreamMessageFormatEnd: u8 = 0x03;

/// `MidiNoteAttribute` codes, as the CoreMIDI headers define them.
pub const kMIDINoteAttributeNone: u8 = 0x0;
pub const kMIDINoteAttributeManufacturerSpecific: u8 = 0x1;
pub const kMIDINoteAttributeProfileSpecific: u8 = 0x2;
pub const kMIDINoteAttributePitch: u8 = 0x3;

/// `NetworkConnectionPolicy` codes, as the CoreMIDI headers define them.
pub const MIDINetworkConnectionPolicy_NoOne: i32 = 0;
pub const MIDINetworkConnectionPolicy_HostsInContactList: i32 = 1;
pub const MIDINetworkConnectionPolicy_Anyone: i32 = 2;

/// `NotificationMessageId` codes, as the CoreMIDI headers define them.
pub const kMIDIMsgSetupChanged: i32 = 1;
pub const kMIDIMsgObjectAdded: i32 = 2;
pub const kMIDIMsgObjectRemoved: i32 = 3;
pub const kMIDIMsgPropertyChanged: i32 = 4;
pub const kMIDIMsgThruConnectionsChanged: i32 = 5;
pub const kMIDIMsgSerialPortOwnerChanged: i32 = 6;
pub const kMIDIMsgIOError: i32 = 7;
pub const kMIDIMsgInternalStart: i32 = 0x1000;

/// `MidiTransformKind` codes, as the CoreMIDI headers define them.
pub const kMIDITransform_None: u16 = 0;
pub const kMIDITransform_FilterOut: u16 = 1;
pub const kMIDITransform_MapControl: u16 = 2;
pub const kMIDITransform_Add: u16 = 8;
pub const kMIDITransform_Scale: u16 = 9;
pub const kMIDITransform_MinValue: u16 = 10;
pub const kMIDITransform_MaxValue: u16 = 11;
pub const kMIDITransform_MapValue: u16 = 12;

/// `MidiControlType` codes, as the CoreMIDI headers define them.
pub const kMIDIControlType_7Bit: u8 = 0;
pub const kMIDIControlType_14Bit: u8 = 1;
pub const kMIDIControlType_7BitRPN: u8 = 2;
pub const kMIDIControlType_14BitRPN: u8 = 3;
pub const kMIDIControlType_7BitNRPN: u8 = 4;
pub const kMIDIControlType_14BitNRPN: u8 = 5;

/// `MidiProtocol` codes, as the CoreMIDI headers define them.
pub const kMIDIProtocol_1_0: i32 = 1;
pub const kMIDIProtocol_2_0: i32 = 2;

/// `MidiStatus` codes, as the CoreMIDI headers define them.
pub const kMIDIInvalidClient: i32 = -10830;
pub const kMIDIInvalidPort: i32 = -10831;
pub const kMIDIWrongEndpointType: i32 = -10832;
pub const kMIDINoConnection: i32 = -10833;
pub const kMIDIUnknownEndpoint: i32 = -10834;
pub const kMIDIUnknownProperty: i32 = -10835;
pub const kMIDIWrongPropertyType: i32 = -10836;
pub const kMIDINoCurrentSetup: i32 = -10837;
pub const kMIDIMessageSendErr: i32 = -10838;
pub const kMIDIServerStartErr: i32 = -10839;
pub const kMIDISetupFormatErr: i32 = -10840;
pub const kMIDIWrongThread: i32 = -10841;
pub const kMIDIObjectNotFound: i32 = -10842;
pub const kMIDIIDNotUnique: i32 = -10843;
pub const kMIDINotPermitted: i32 = -10844;
pub const kMIDIUnknownError: i32 = -10845;

/// `MidiObjectType` codes, as the CoreMIDI headers define them.
pub const kMIDIObjectType_Other: i32 = -1;
pub const kMIDIObjectType_Device: i32 = 0;
pub const kMIDIObjectType_Entity: i32 = 1;
pub const kMIDIObjectType_Source: i32 = 2;
pub const kMIDIObjectType_Destination: i32 = 3;
pub const kMIDIObjectType_ExternalMask: i32 = 0x10;
pub const kMIDIObjectType_ExternalDevice: i32 = 0x10;
pub const kMIDIObjectType_ExternalEntity: i32 = 0x11;
pub const kMIDIObjectType_ExternalSource: i32 = 0x12;
pub const kMIDIObjectType_ExternalDestination: i32 = 0x13;

} // verus!
