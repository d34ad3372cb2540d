//! MIDI-CI message types, discovery snapshots and profile checks.
use vstd::prelude::*;
use vstd::string::StringExecFns;
use crate::endpoint::Midi2DeviceInfo;
use crate::error::{MidiError, MidiResult};

verus! {

/// MIDI-CI profile configuration message types.
#[derive(Debug, Clone, Copy, PartialEq, Eq, Hash)]
pub enum CiProfileMessageType {
    ProfileInquiry,
    ReplyToProfileInquiry,
    SetProfileOn,
    SetProfileOff,
    ProfileEnabledReport,
    ProfileDisabledReport,
    ProfileAdded,
    ProfileRemoved,
    DetailsInquiry,
    ReplyToDetailsInquiry,
    ProfileSpecificData,
}

impl CiProfileMessageType {
    /// The raw value this case stands for.
    pub open spec fn spec_as_raw(self) -> u8 {
        match self {
            CiProfileMessageType::ProfileInquiry => 0x20u8,
            CiProfileMessageType::ReplyToProfileInquiry => 0x21u8,
            CiProfileMessageType::SetProfileOn => 0x22u8,
            CiProfileMessageType::SetProfileOff => 0x23u8,
            CiProfileMessageType::ProfileEnabledReport => 0x24u8,
            CiProfileMessageType::ProfileDisabledReport => 0x25u8,
            CiProfileMessageType::ProfileAdded => 0x26u8,
            CiProfileMessageType::ProfileRemoved => 0x27u8,
            CiProfileMessageType::DetailsInquiry => 0x28u8,
            CiProfileMessageType::ReplyToDetailsInquiry => 0x29u8,
            CiProfileMessageType::ProfileSpecificData => 0x2Fu8,
        }
    }

    /// Each case stands for the code the CoreMIDI headers give it.
    pub proof fn lemma_coremidi_codes()
        ensures
            Self::spec_as_raw(CiProfileMessageType::ProfileInquiry) == crate::ffi::kMIDICIProfileMessageTypeProfileInquiry,
            Self::spec_as_raw(CiProfileMessageType::ReplyToProfileInquiry) == crate::ffi::kMIDICIProfileMessageTypeReplyToProfileInquiry,
            Self::spec_as_raw(CiProfileMessageType::SetProfileOn) == crate::ffi::kMIDICIProfileMessageTypeSetProfileOn,
            Self::spec_as_raw(CiProfileMessageType::SetProfileOff) == crate::ffi::kMIDICIProfileMessageTypeSetProfileOff,
            Self::spec_as_raw(CiProfileMessageType::ProfileEnabledReport) == crate::ffi::kMIDICIProfileMessageTypeProfileEnabledReport,
            Self::spec_as_raw(CiProfileMessageType::ProfileDisabledReport) == crate::ffi::kMIDICIProfileMessageTypeProfileDisabledReport,
            Self::spec_as_raw(CiProfileMessageType::ProfileAdded) == crate::ffi::kMIDICIProfileMessageTypeProfileAdded,
            Self::spec_as_raw(CiProfileMessageType::ProfileRemoved) == crate::ffi::kMIDICIProfileMessageTypeProfileRemoved,
            Self::spec_as_raw(CiProfileMessageType::DetailsInquiry) == crate::ffi::kMIDICIProfileMessageTypeDetailsInquiry,
            Self::spec_as_raw(CiProfileMessageType::ReplyToDetailsInquiry) == crate::ffi::kMIDICIProfileMessageTypeReplyToDetailsInquiry,
            Self::spec_as_raw(CiProfileMessageType::ProfileSpecificData) == crate::ffi::kMIDICIProfileMessageTypeProfileSpecificData,
    {
    }

    /// Different cases have different raw values.
    pub proof fn lemma_raw_injective(a: Self, b: Self)
        requires
            a.spec_as_raw() == b.spec_as_raw(),
        ensures
            a == b,
    {
    }

    /// The raw value for this case.
    pub fn as_raw(self) -> (r: u8)
        ensures
            r == self.spec_as_raw(),
    {
        match self {
            CiProfileMessageType::ProfileInquiry => 0x20,
            CiProfileMessageType::ReplyToProfileInquiry => 0x21,
            CiProfileMessageType::SetProfileOn => 0x22,
            CiProfileMessageType::SetProfileOff => 0x23,
            CiProfileMessageType::ProfileEnabledReport => 0x24,
            CiProfileMessageType::ProfileDisabledReport => 0x25,
            CiProfileMessageType::ProfileAdded => 0x26,
            CiProfileMessageType::ProfileRemoved => 0x27,
            CiProfileMessageType::DetailsInquiry => 0x28,
            CiProfileMessageType::ReplyToDetailsInquiry => 0x29,
            CiProfileMessageType::ProfileSpecificData => 0x2F,
        }
    }

    /// The case with this raw value, if there is one.
    pub fn from_raw(raw: u8) -> (r: Option<Self>)
        ensures
            r matches Some(v) ==> v.spec_as_raw() == raw,
            r is None ==> forall|v: Self| v.spec_as_raw() != raw,
    {
        match raw {
            0x20 => Some(CiProfileMessageType::ProfileInquiry),
            0x21 => Some(CiProfileMessageType::ReplyToProfileInquiry),
            0x22 => Some(CiProfileMessageType::SetProfileOn),
            0x23 => Some(CiProfileMessageType::SetProfileOff),
            0x24 => Some(CiProfileMessageType::ProfileEnabledReport),
            0x25 => Some(CiProfileMessageType::ProfileDisabledReport),
            0x26 => Some(CiProfileMessageType::ProfileAdded),
            0x27 => Some(CiProfileMessageType::ProfileRemoved),
            0x28 => Some(CiProfileMessageType::DetailsInquiry),
            0x29 => Some(CiProfileMessageType::ReplyToDetailsInquiry),
            0x2F => Some(CiProfileMessageType::ProfileSpecificData),
            _ => None,
        }
    }
}
/// MIDI-CI property exchange message types.
#[derive(Debug, Clone, Copy, PartialEq, Eq, Hash)]
pub enum CiPropertyExchangeMessageType {
    InquiryPropertyExchangeCapabilities,
    ReplyToPropertyExchangeCapabilities,
    InquiryHasPropertyDataReserved,
    InquiryReplyToHasPropertyDataReserved,
    InquiryGetPropertyData,
    ReplyToGetProperty,
    InquirySetPropertyData,
    ReplyToSetPropertyData,
    Subscription,
    ReplyToSubscription,
    Notify,
}

impl CiPropertyExchangeMessageType {
    /// The raw value this case stands for.
    pub open spec fn spec_as_raw(self) -> u8 {
        match self {
            CiPropertyExchangeMessageType::InquiryPropertyExchangeCapabilities => 0x30u8,
            CiPropertyExchangeMessageType::ReplyToPropertyExchangeCapabilities => 0x31u8,
            CiPropertyExchangeMessageType::InquiryHasPropertyDataReserved => 0x32u8,
            CiPropertyExchangeMessageType::InquiryReplyToHasPropertyDataReserved => 0x33u8,
            CiPropertyExchangeMessageType::InquiryGetPropertyData => 0x34u8,
            CiPropertyExchangeMessageType::ReplyToGetProperty => 0x35u8,
            CiPropertyExchangeMessageType::InquirySetPropertyData => 0x36u8,
            CiPropertyExchangeMessageType::ReplyToSetPropertyData => 0x37u8,
            CiPropertyExchangeMessageType::Subscription => 0x38u8,
            CiPropertyExchangeMessageType::ReplyToSubscription => 0x39u8,
            CiPropertyExchangeMessageType::Notify => 0x3Fu8,
        }
    }

    /// Each case stands for the code the CoreMIDI headers give it.
    pub proof fn lemma_coremidi_codes()
        ensures
            Self::spec_as_raw(CiPropertyExchangeMessageType::InquiryPropertyExchangeCapabilities) == crate::ffi::kMIDICIPropertyExchangeMessageTypeInquiryPropertyExchangeCapabilities,
            Self::spec_as_raw(CiPropertyExchangeMessageType::ReplyToPropertyExchangeCapabilities) == crate::ffi::kMIDICIPropertyExchangeMessageTypeReplyToPropertyExchangeCapabilities,
            Self::spec_as_raw(CiPropertyExchangeMessageType::InquiryHasPropertyDataReserved) == crate::ffi::kMIDICIPropertyExchangeMessageTypeInquiryHasPropertyDataReserved,
            Self::spec_as_raw(CiPropertyExchangeMessageType::InquiryReplyToHasPropertyDataReserved) == crate::ffi::kMIDICIPropertyExchangeMessageTypeInquiryReplyToHasPropertyDataReserved,
            Self::spec_as_raw(CiPropertyExchangeMessageType::InquiryGetPropertyData) == crate::ffi::kMIDICIPropertyExchangeMessageTypeInquiryGetPropertyData,
            Self::spec_as_raw(CiPropertyExchangeMessageType::ReplyToGetProperty) == crate::ffi::kMIDICIPropertyExchangeMessageTypeReplyToGetProperty,
            Self::spec_as_raw(CiPropertyExchangeMessageType::InquirySetPropertyData) == crate::ffi::kMIDICIPropertyExchangeMessageTypeInquirySetPropertyData,
            Self::spec_as_raw(CiPropertyExchangeMessageType::ReplyToSetPropertyData) == crate::ffi::kMIDICIPropertyExchangeMessageTypeReplyToSetPropertyData,
            Self::spec_as_raw(CiPropertyExchangeMessageType::Subscription) == crate::ffi::kMIDICIPropertyExchangeMessageTypeSubscription,
            Self::spec_as_raw(CiPropertyExchangeMessageType::ReplyToSubscription) == crate::ffi::kMIDICIPropertyExchangeMessageTypeReplyToSubscription,
            Self::spec_as_raw(CiPropertyExchangeMessageType::Notify) == crate::ffi::kMIDICIPropertyExchangeMessageTypeNotify,
    {
    }

    /// Different cases have different raw values.
    pub proof fn lemma_raw_injective(a: Self, b: Self)
        requires
            a.spec_as_raw() == b.spec_as_raw(),
        ensures
            a == b,
    {
    }

    /// The raw value for this case.
    pub fn as_raw(self) -> (r: u8)
        ensures
            r == self.spec_as_raw(),
    {
        match self {
            CiPropertyExchangeMessageType::InquiryPropertyExchangeCapabilities => 0x30,
            CiPropertyExchangeMessageType::ReplyToPropertyExchangeCapabilities => 0x31,
            CiPropertyExchangeMessageType::InquiryHasPropertyDataReserved => 0x32,
            CiPropertyExchangeMessageType::InquiryReplyToHasPropertyDataReserved => 0x33,
            CiPropertyExchangeMessageType::InquiryGetPropertyData => 0x34,
            CiPropertyExchangeMessageType::ReplyToGetProperty => 0x35,
            CiPropertyExchangeMessageType::InquirySetPropertyData => 0x36,
            CiPropertyExchangeMessageType::ReplyToSetPropertyData => 0x37,
            CiPropertyExchangeMessageType::Subscription => 0x38,
            CiPropertyExchangeMessageType::ReplyToSubscription => 0x39,
            CiPropertyExchangeMessageType::Notify => 0x3F,
        }
    }

    /// The case with this raw value, if there is one.
    pub fn from_raw(raw: u8) -> (r: Option<Self>)
        ensures
            r matches Some(v) ==> v.spec_as_raw() == raw,
            r is None ==> forall|v: Self| v.spec_as_raw() != raw,
    {
        match raw {
            0x30 => Some(CiPropertyExchangeMessageType::InquiryPropertyExchangeCapabilities),
            0x31 => Some(CiPropertyExchangeMessageType::ReplyToPropertyExchangeCapabilities),
            0x32 => Some(CiPropertyExchangeMessageType::InquiryHasPropertyDataReserved),
            0x33 => Some(CiPropertyExchangeMessageType::InquiryReplyToHasPropertyDataReserved),
            0x34 => Some(CiPropertyExchangeMessageType::InquiryGetPropertyData),
            0x35 => Some(CiPropertyExchangeMessageType::ReplyToGetProperty),
            0x36 => Some(CiPropertyExchangeMessageType::InquirySetPropertyData),
            0x37 => Some(CiPropertyExchangeMessageType::ReplyToSetPropertyData),
            0x38 => Some(CiPropertyExchangeMessageType::Subscription),
            0x39 => Some(CiPropertyExchangeMessageType::ReplyToSubscription),
            0x3F => Some(CiPropertyExchangeMessageType::Notify),
            _ => None,
        }
    }
}
/// MIDI-CI process inquiry message types.
#[derive(Debug, Clone, Copy, PartialEq, Eq, Hash)]
pub enum CiProcessInquiryMessageType {
    InquiryProcessInquiryCapabilities,
    ReplyToProcessInquiryCapabilities,
    InquiryMidiMessageReport,
    ReplyToMidiMessageReport,
    EndOfMidiMessageReport,
}

impl CiProcessInquiryMessageType {
    /// The raw value this case stands for.
    pub open spec fn spec_as_raw(self) -> u8 {
        match self {
            CiProcessInquiryMessageType::InquiryProcessInquiryCapabilities => 0x40u8,
            CiProcessInquiryMessageType::ReplyToProcessInquiryCapabilities => 0x41u8,
            CiProcessInquiryMessageType::InquiryMidiMessageReport => 0x42u8,
            CiProcessInquiryMessageType::ReplyToMidiMessageReport => 0x43u8,
            CiProcessInquiryMessageType::EndOfMidiMessageReport => 0x44u8,
        }
    }

    /// Each case stands for the code the CoreMIDI headers give it.
    pub proof fn lemma_coremidi_codes()
        ensures
            Self::spec_as_raw(CiProcessInquiryMessageType::InquiryProcessInquiryCapabilities) == crate::ffi::kMIDICIProcessInquiryMessageTypeInquiryProcessInquiryCapabilities,
            Self::spec_as_raw(CiProcessInquiryMessageType::ReplyToProcessInquiryCapabilities) == crate::ffi::kMIDICIProcessInquiryMessageTypeReplyToProcessInquiryCapabilities,
            Self::spec_as_raw(CiProcessInquiryMessageType::InquiryMidiMessageReport) == crate::ffi::kMIDICIProcessInquiryMessageTypeInquiryMidiMessageReport,
            Self::spec_as_raw(CiProcessInquiryMessageType::ReplyToMidiMessageReport) == crate::ffi::kMIDICIProcessInquiryMessageTypeReplyToMidiMessageReport,
            Self::spec_as_raw(CiProcessInquiryMessageType::EndOfMidiMessageReport) == crate::ffi::kMIDICIProcessInquiryMessageTypeEndOfMidiMessageReport,
    {
    }

    /// Different cases have different raw values.
    pub proof fn lemma_raw_injective(a: Self, b: Self)
        requires
            a.spec_as_raw() == b.spec_as_raw(),
        ensures
            a == b,
    {
    }

    /// The raw value for this case.
    pub fn as_raw(self) -> (r: u8)
        ensures
            r == self.spec_as_raw(),
    {
        match self {
            CiProcessInquiryMessageType::InquiryProcessInquiryCapabilities => 0x40,
            CiProcessInquiryMessageType::ReplyToProcessInquiryCapabilities => 0x41,
            CiProcessInquiryMessageType::InquiryMidiMessageReport => 0x42,
            CiProcessInquiryMessageType::ReplyToMidiMessageReport => 0x43,
            CiProcessInquiryMessageType::EndOfMidiMessageReport => 0x44,
        }
    }

    /// The case with this raw value, if there is one.
    pub fn from_raw(raw: u8) -> (r: Option<Self>)
        ensures
            r matches Some(v) ==> v.spec_as_raw() == raw,
            r is None ==> forall|v: Self| v.spec_as_raw() != raw,
    {
        match raw {
            0x40 => Some(CiProcessInquiryMessageType::InquiryProcessInquiryCapabilities),
            0x41 => Some(CiProcessInquiryMessageType::ReplyToProcessInquiryCapabilities),
            0x42 => Some(CiProcessInquiryMessageType::InquiryMidiMessageReport),
            0x43 => Some(CiProcessInquiryMessageType::ReplyToMidiMessageReport),
            0x44 => Some(CiProcessInquiryMessageType::EndOfMidiMessageReport),
            _ => None,
        }
    }
}
/// MIDI-CI management message types.
#[derive(Debug, Clone, Copy, PartialEq, Eq, Hash)]
pub enum CiManagementMessageType {
    Discovery,
    ReplyToDiscovery,
    InquiryEndpointInformation,
    ReplyToEndpointInformation,
    MidiCiAck,
    InvalidateMuid,
    MidiCiNak,
}

impl CiManagementMessageType {
    /// The raw value this case stands for.
    pub open spec fn spec_as_raw(self) -> u8 {
        match self {
            CiManagementMessageType::Discovery => 0x70u8,
            CiManagementMessageType::ReplyToDiscovery => 0x71u8,
            CiManagementMessageType::InquiryEndpointInformation => 0x72u8,
            CiManagementMessageType::ReplyToEndpointInformation => 0x73u8,
            CiManagementMessageType::MidiCiAck => 0x7Du8,
            CiManagementMessageType::InvalidateMuid => 0x7Eu8,
            CiManagementMessageType::MidiCiNak => 0x7Fu8,
        }
    }

    /// Each case stands for the code the CoreMIDI headers give it.
    pub proof fn lemma_coremidi_codes()
        ensures
            Self::spec_as_raw(CiManagementMessageType::Discovery) == crate::ffi::kMIDICIManagementMessageTypeDiscovery,
            Self::spec_as_raw(CiManagementMessageType::ReplyToDiscovery) == crate::ffi::kMIDICIManagementMessageTypeReplyToDiscovery,
            Self::spec_as_raw(CiManagementMessageType::InquiryEndpointInformation) == crate::ffi::kMIDICIManagementMessageTypeInquiryEndpointInformation,
            Self::spec_as_raw(CiManagementMessageType::ReplyToEndpointInformation) == crate::ffi::kMIDICIManagementMessageTypeReplyToEndpointInformation,
            Self::spec_as_raw(CiManagementMessageType::MidiCiAck) == crate::ffi::kMIDICIManagementMessageTypeMidiCiAck,
            Self::spec_as_raw(CiManagementMessageType::InvalidateMuid) == crate::ffi::kMIDICIManagementMessageTypeInvalidateMuid,
            Self::spec_as_raw(CiManagementMessageType::MidiCiNak) == crate::ffi::kMIDICIManagementMessageTypeMidiCiNak,
    {
    }

    /// Different cases have different raw values.
    pub proof fn lemma_raw_injective(a: Self, b: Self)
        requires
            a.spec_as_raw() == b.spec_as_raw(),
        ensures
            a == b,
    {
    }

    /// The raw value for this case.
    pub fn as_raw(self) -> (r: u8)
        ensures
            r == self.spec_as_raw(),
    {
        match self {
            CiManagementMessageType::Discovery => 0x70,
            CiManagementMessageType::ReplyToDiscovery => 0x71,
            CiManagementMessageType::InquiryEndpointInformation => 0x72,
            CiManagementMessageType::ReplyToEndpointInformation => 0x73,
            CiManagementMessageType::MidiCiAck => 0x7D,
            CiManagementMessageType::InvalidateMuid => 0x7E,
            CiManagementMessageType::MidiCiNak => 0x7F,
        }
    }

    /// The case with this raw value, if there is one.
    pub fn from_raw(raw: u8) -> (r: Option<Self>)
        ensures
            r matches Some(v) ==> v.spec_as_raw() == raw,
            r is None ==> forall|v: Self| v.spec_as_raw() != raw,
    {
        match raw {
            0x70 => Some(CiManagementMessageType::Discovery),
            0x71 => Some(CiManagementMessageType::ReplyToDiscovery),
            0x72 => Some(CiManagementMessageType::InquiryEndpointInformation),
            0x73 => Some(CiManagementMessageType::ReplyToEndpointInformation),
            0x7D => Some(CiManagementMessageType::MidiCiAck),
            0x7E => Some(CiManagementMessageType::InvalidateMuid),
            0x7F => Some(CiManagementMessageType::MidiCiNak),
            _ => None,
        }
    }
}

/// The notification names and keys of `MIDICIDeviceManager`.
#[derive(Debug, Clone, PartialEq, Eq)]
pub struct CiDeviceManagerConstants {
    pub device_added_notification: String,
    pub device_removed_notification: String,
    pub profile_updated_notification: String,
    pub profile_removed_notification: String,
    pub device_object_key: String,
    pub profile_object_key: String,
}

/// A snapshot of a MIDI-CI profile.
#[derive(Debug, Clone, PartialEq, Eq)]
pub struct CiProfileInfo {
    pub name: String,
    pub profile_id: Vec<u8>,
    pub profile_type: u8,
    pub group_offset: u8,
    pub first_channel: u8,
    pub enabled_channel_count: u16,
    pub total_channel_count: u16,
    pub is_enabled: bool,
}

/// A snapshot of a discovered MIDI-CI device.
#[derive(Debug, Clone, PartialEq, Eq)]
pub struct CiDeviceInfo {
    pub device_info: Midi2DeviceInfo,
    pub muid: u32,
    pub supports_protocol_negotiation: bool,
    pub supports_profile_configuration: bool,
    pub supports_property_exchange: bool,
    pub supports_process_inquiry: bool,
    pub max_sysex_size: usize,
    pub max_property_exchange_requests: usize,
    pub device_type: u8,
    pub profiles: Vec<CiProfileInfo>,
}

/// A legacy `MIDICIProfile`: a name and its profile-ID bytes.
#[derive(Debug, Clone, PartialEq, Eq)]
pub struct LegacyCiProfileInfo {
    pub name: String,
    pub profile_id: Vec<u8>,
}

/// A snapshot of a legacy `MIDICIProfileState`.
#[derive(Debug, Clone, PartialEq, Eq)]
pub struct CiProfileStateInfo {
    pub midi_channel: u8,
    pub enabled_profiles: Vec<LegacyCiProfileInfo>,
    pub disabled_profiles: Vec<LegacyCiProfileInfo>,
}

/// The length of a MIDI-CI profile ID.
pub const PROFILE_ID_LEN: usize = 5;

/// Whether every profile has a five-byte profile ID.
pub open spec fn profile_ids_valid(profiles: Seq<LegacyCiProfileInfo>) -> bool {
    forall|i: int| 0 <= i < profiles.len() ==> #[trigger] profiles[i].profile_id@.len() == PROFILE_ID_LEN
}

/// The message for a profile whose ID is not five bytes long.
pub open spec fn profile_id_message(name: Seq<char>) -> Seq<char> {
    "MIDI-CI profile '"@ + name + "' must contain exactly 5 profile-ID bytes"@
}

/// Whether the profile at `i` is the first one with an ID that is not five
/// bytes long.
pub open spec fn first_bad_profile(profiles: Seq<LegacyCiProfileInfo>, i: int) -> bool {
    &&& 0 <= i < profiles.len()
    &&& profiles[i].profile_id@.len() != PROFILE_ID_LEN
    &&& forall|j: int| 0 <= j < i ==> #[trigger] profiles[j].profile_id@.len() == PROFILE_ID_LEN
}

/// Refuses profiles whose IDs are not five bytes long, as `InvalidArgument`
/// naming the first such profile.
pub fn validate_profile_ids(profiles: &[LegacyCiProfileInfo]) -> (r: MidiResult<()>)
    ensures
        r is Ok <==> profile_ids_valid(profiles@),
        r matches Err(e) ==> e matches MidiError::InvalidArgument(m) && exists|i: int|
            first_bad_profile(profiles@, i) && m@ == profile_id_message(#[trigger] profiles@[i].name@),
{
    let mut i: usize = 0;
    while i < profiles.len()
        invariant
            i <= profiles@.len(),
            forall|j: int| 0 <= j < i ==> #[trigger] profiles@[j].profile_id@.len() == PROFILE_ID_LEN,
        decreases profiles@.len() - i,
    {
        if profiles[i].profile_id.len() != PROFILE_ID_LEN {
            let mut text = String::from_str("MIDI-CI profile '");
            text.append(profiles[i].name.as_str());
            text.append("' must contain exactly 5 profile-ID bytes");
            assert(first_bad_profile(profiles@, i as int));
            return Err(MidiError::InvalidArgument(text));
        }
        i = i + 1;
    }
    Ok(())
}

/// Checks the arguments of a legacy profile state (`CiProfileState::new`):
/// a channel above 15 and profile IDs that are not five bytes long are
/// `InvalidArgument` errors.
pub fn validate_profile_state(
    midi_channel: Option<u8>,
    enabled_profiles: &[LegacyCiProfileInfo],
    disabled_profiles: &[LegacyCiProfileInfo],
) -> (r: MidiResult<()>)
    ensures
        r is Ok <==> (match midi_channel {
            Some(c) => c <= 0x0F,
            None => true,
        }) && profile_ids_valid(enabled_profiles@) && profile_ids_valid(disabled_profiles@),
        r matches Err(e) ==> e matches MidiError::InvalidArgument(m) && (
            if midi_channel matches Some(c) && c > 0x0F {
                m@ == "MIDI-CI profile-state channel must be in the range 0..=15"@
            } else if !profile_ids_valid(enabled_profiles@) {
                exists|i: int| first_bad_profile(enabled_profiles@, i)
                    && m@ == profile_id_message(#[trigger] enabled_profiles@[i].name@)
            } else {
                exists|i: int| first_bad_profile(disabled_profiles@, i)
                    && m@ == profile_id_message(#[trigger] disabled_profiles@[i].name@)
            }
        ),
{
    if let Some(channel) = midi_channel {
        if channel > 0x0F {
            return Err(MidiError::InvalidArgument(
                String::from_str("MIDI-CI profile-state channel must be in the range 0..=15"),
            ));
        }
    }
    validate_profile_ids(enabled_profiles)?;
    validate_profile_ids(disabled_profiles)?;
    Ok(())
}

} // verus!
