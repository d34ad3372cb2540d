//! Protocol identifiers and Universal MIDI Packet helpers.
use vstd::prelude::*;

verus! {

/// `MIDIProtocolID`.
#[derive(Debug, Clone, Copy, PartialEq, Eq, Hash)]
pub enum MidiProtocol {
    /// `kMIDIProtocol_1_0`.
    Midi1,
    /// `kMIDIProtocol_2_0`.
    Midi2,
}

impl MidiProtocol {
    /// The `MIDIProtocolID` for this protocol.
    pub open spec fn spec_as_raw(self) -> i32 {
        match self {
            MidiProtocol::Midi1 => 1i32,
            MidiProtocol::Midi2 => 2i32,
        }
    }

    /// Each case stands for the code the CoreMIDI headers give it.
    pub proof fn lemma_coremidi_codes()
        ensures
            Self::spec_as_raw(MidiProtocol::Midi1) == crate::ffi::kMIDIProtocol_1_0,
            Self::spec_as_raw(MidiProtocol::Midi2) == crate::ffi::kMIDIProtocol_2_0,
    {
    }

    /// The protocol with this `MIDIProtocolID`, if there is one.
    pub open spec fn spec_from_raw(raw: i32) -> Option<Self> {
        if raw == 1 {
            Some(MidiProtocol::Midi1)
        } else if raw == 2 {
            Some(MidiProtocol::Midi2)
        } else {
            None
        }
    }

    /// Decoding a code gives the case that stands for it, and only a code
    /// some case stands for decodes.
    pub proof fn lemma_decode_inverts_codes(raw: i32, k: Self)
        ensures
            Self::spec_from_raw(raw) matches Some(d) ==> d.spec_as_raw() == raw,
            Self::spec_from_raw(k.spec_as_raw()) == Some(k),
            (Self::spec_from_raw(raw) is None) <==> (forall|c: Self| c.spec_as_raw() != raw),
    {
        if Self::spec_from_raw(raw) is None {
            assert forall|c: Self| c.spec_as_raw() != raw by {
                match c { _ => {} }
            }
        }
    }

    /// Each protocol is found again from its identifier.
    pub proof fn lemma_raw_roundtrip(p: Self)
        ensures
            Self::spec_from_raw(p.spec_as_raw()) == Some(p),
            p.spec_as_raw() as u32 as i32 == p.spec_as_raw(),
    {
    }

    /// The `MIDIProtocolID` for this protocol.
    pub fn as_raw(self) -> (r: i32)
        ensures
            r == self.spec_as_raw(),
    {
        match self {
            MidiProtocol::Midi1 => 1,
            MidiProtocol::Midi2 => 2,
        }
    }

    /// The protocol with this `MIDIProtocolID`, if there is one.
    pub fn from_raw(raw: i32) -> (r: Option<Self>)
        ensures
            r == Self::spec_from_raw(raw),
            r matches Some(p) ==> p.spec_as_raw() == raw,
    {
        match raw {
            1 => Some(MidiProtocol::Midi1),
            2 => Some(MidiProtocol::Midi2),
            _ => None,
        }
    }
}

/// The UMP message type, from the top four bits of a packet's first word.
#[derive(Debug, Clone, Copy, PartialEq, Eq, Hash)]
pub enum MidiMessageType {
    Utility,
    System,
    ChannelVoice1,
    SysEx,
    ChannelVoice2,
    Data128,
    FlexData,
    Stream,
    Invalid,
}

impl MidiMessageType {
    /// The raw `MIDIMessageType` value.
    pub open spec fn spec_as_raw(self) -> u32 {
        match self {
            MidiMessageType::Utility => 0x0u32,
            MidiMessageType::System => 0x1u32,
            MidiMessageType::ChannelVoice1 => 0x2u32,
            MidiMessageType::SysEx => 0x3u32,
            MidiMessageType::ChannelVoice2 => 0x4u32,
            MidiMessageType::Data128 => 0x5u32,
            MidiMessageType::FlexData => 0xDu32,
            MidiMessageType::Stream => 0xFu32,
            MidiMessageType::Invalid => 0xFFu32,
        }
    }

    /// Each case stands for the code the CoreMIDI headers give it.
    pub proof fn lemma_coremidi_codes()
        ensures
            Self::spec_as_raw(MidiMessageType::Utility) == crate::ffi::kMIDIMessageTypeUtility,
            Self::spec_as_raw(MidiMessageType::System) == crate::ffi::kMIDIMessageTypeSystem,
            Self::spec_as_raw(MidiMessageType::ChannelVoice1) == crate::ffi::kMIDIMessageTypeChannelVoice1,
            Self::spec_as_raw(MidiMessageType::SysEx) == crate::ffi::kMIDIMessageTypeSysEx,
            Self::spec_as_raw(MidiMessageType::ChannelVoice2) == crate::ffi::kMIDIMessageTypeChannelVoice2,
            Self::spec_as_raw(MidiMessageType::Data128) == crate::ffi::kMIDIMessageTypeData128,
            Self::spec_as_raw(MidiMessageType::FlexData) == crate::ffi::kMIDIMessageTypeFlexData,
            Self::spec_as_raw(MidiMessageType::Stream) == crate::ffi::kMIDIMessageTypeStream,
            Self::spec_as_raw(MidiMessageType::Invalid) == crate::ffi::kMIDIMessageTypeInvalid,
    {
    }

    /// The message type with this raw value, if there is one.
    pub open spec fn spec_from_raw(raw: u32) -> Option<Self> {
        if raw == 0x0 {
            Some(MidiMessageType::Utility)
        } else if raw == 0x1 {
            Some(MidiMessageType::System)
        } else if raw == 0x2 {
            Some(MidiMessageType::ChannelVoice1)
        } else if raw == 0x3 {
            Some(MidiMessageType::SysEx)
        } else if raw == 0x4 {
            Some(MidiMessageType::ChannelVoice2)
        } else if raw == 0x5 {
            Some(MidiMessageType::Data128)
        } else if raw == 0xD {
            Some(MidiMessageType::FlexData)
        } else if raw == 0xF {
            Some(MidiMessageType::Stream)
        } else if raw == 0xFF {
            Some(MidiMessageType::Invalid)
        } else {
            None
        }
    }

    /// Decoding a code gives the case that stands for it, and only a code
    /// some case stands for decodes.
    pub proof fn lemma_decode_inverts_codes(raw: u32, k: Self)
        ensures
            Self::spec_from_raw(raw) matches Some(d) ==> d.spec_as_raw() == raw,
            Self::spec_from_raw(k.spec_as_raw()) == Some(k),
            (Self::spec_from_raw(raw) is None) <==> (forall|c: Self| c.spec_as_raw() != raw),
    {
        if Self::spec_from_raw(raw) is None {
            assert forall|c: Self| c.spec_as_raw() != raw by {
                match c { _ => {} }
            }
        }
    }

    /// The message type named by the top nibble of `word`.
    pub open spec fn spec_from_up_word(word: u32) -> Option<Self> {
        Self::spec_from_raw(word >> 28u32)
    }

    /// A UMP word names the message type whose code stands in its top four
    /// bits, whatever its other 28 bits hold; a word whose top nibble is no
    /// type's code names none.
    pub proof fn lemma_up_word_type(k: Self, nibble: u32, rest: u32)
        requires
            nibble <= 0xF,
            rest < 0x1000_0000,
        ensures
            k.spec_as_raw() <= 0xF ==> Self::spec_from_up_word((k.spec_as_raw() << 28u32) | rest) == Some(k),
            Self::spec_from_up_word((nibble << 28u32) | rest) == Self::spec_from_raw(nibble),
    {
        assert(((nibble << 28u32) | rest) >> 28u32 == nibble) by (bit_vector)
            requires
                nibble <= 0xF,
                rest < 0x1000_0000,
        ;
        let r = k.spec_as_raw();
        if r <= 0xF {
            assert(((r << 28u32) | rest) >> 28u32 == r) by (bit_vector)
                requires
                    r <= 0xF,
                    rest < 0x1000_0000,
            ;
            Self::lemma_decode_inverts_codes(r, k);
        }
    }

    /// The raw `MIDIMessageType` value.
    pub fn as_raw(self) -> (r: u32)
        ensures
            r == self.spec_as_raw(),
    {
        match self {
            MidiMessageType::Utility => 0x0,
            MidiMessageType::System => 0x1,
            MidiMessageType::ChannelVoice1 => 0x2,
            MidiMessageType::SysEx => 0x3,
            MidiMessageType::ChannelVoice2 => 0x4,
            MidiMessageType::Data128 => 0x5,
            MidiMessageType::FlexData => 0xD,
            MidiMessageType::Stream => 0xF,
            MidiMessageType::Invalid => 0xFF,
        }
    }

    /// The message type with this raw value, if there is one.
    pub fn from_raw(raw: u32) -> (r: Option<Self>)
        ensures
            r == Self::spec_from_raw(raw),
    {
        match raw {
            0x0 => Some(MidiMessageType::Utility),
            0x1 => Some(MidiMessageType::System),
            0x2 => Some(MidiMessageType::ChannelVoice1),
            0x3 => Some(MidiMessageType::SysEx),
            0x4 => Some(MidiMessageType::ChannelVoice2),
            0x5 => Some(MidiMessageType::Data128),
            0xD => Some(MidiMessageType::FlexData),
            0xF => Some(MidiMessageType::Stream),
            0xFF => Some(MidiMessageType::Invalid),
            _ => None,
        }
    }

    /// The message type named by the top four bits of a UMP word.
    pub fn from_up_word(word: u32) -> (r: Option<Self>)
        ensures
            r == Self::spec_from_up_word(word),
    {
        assert((word >> 28u32) & 0xF == word >> 28u32) by (bit_vector);
        Self::from_raw((word >> 28u32) & 0xF)
    }
}

/// Channel-voice status nibbles (`MIDICVStatus`).
#[derive(Debug, Clone, Copy, PartialEq, Eq, Hash)]
pub enum MidiCvStatus {
    NoteOff,
    NoteOn,
    PolyPressure,
    ControlChange,
    ProgramChange,
    ChannelPressure,
    PitchBend,
    RegisteredPnc,
    AssignablePnc,
    RegisteredControl,
    AssignableControl,
    RelRegisteredControl,
    RelAssignableControl,
    PerNotePitchBend,
    PerNoteMgmt,
}

impl MidiCvStatus {
    /// The raw value this case stands for.
    pub open spec fn spec_as_raw(self) -> u32 {
        match self {
            MidiCvStatus::NoteOff => 0x8u32,
            MidiCvStatus::NoteOn => 0x9u32,
            MidiCvStatus::PolyPressure => 0xAu32,
            MidiCvStatus::ControlChange => 0xBu32,
            MidiCvStatus::ProgramChange => 0xCu32,
            MidiCvStatus::ChannelPressure => 0xDu32,
            MidiCvStatus::PitchBend => 0xEu32,
            MidiCvStatus::RegisteredPnc => 0x0u32,
            MidiCvStatus::AssignablePnc => 0x1u32,
            MidiCvStatus::RegisteredControl => 0x2u32,
            MidiCvStatus::AssignableControl => 0x3u32,
            MidiCvStatus::RelRegisteredControl => 0x4u32,
            MidiCvStatus::RelAssignableControl => 0x5u32,
            MidiCvStatus::PerNotePitchBend => 0x6u32,
            MidiCvStatus::PerNoteMgmt => 0xFu32,
        }
    }

    /// Each case stands for the code the CoreMIDI headers give it.
    pub proof fn lemma_coremidi_codes()
        ensures
            Self::spec_as_raw(MidiCvStatus::NoteOff) == crate::ffi::kMIDICVStatusNoteOff,
            Self::spec_as_raw(MidiCvStatus::NoteOn) == crate::ffi::kMIDICVStatusNoteOn,
            Self::spec_as_raw(MidiCvStatus::PolyPressure) == crate::ffi::kMIDICVStatusPolyPressure,
            Self::spec_as_raw(MidiCvStatus::ControlChange) == crate::ffi::kMIDICVStatusControlChange,
            Self::spec_as_raw(MidiCvStatus::ProgramChange) == crate::ffi::kMIDICVStatusProgramChange,
            Self::spec_as_raw(MidiCvStatus::ChannelPressure) == crate::ffi::kMIDICVStatusChannelPressure,
            Self::spec_as_raw(MidiCvStatus::PitchBend) == crate::ffi::kMIDICVStatusPitchBend,
            Self::spec_as_raw(MidiCvStatus::RegisteredPnc) == crate::ffi::kMIDICVStatusRegisteredPnc,
            Self::spec_as_raw(MidiCvStatus::AssignablePnc) == crate::ffi::kMIDICVStatusAssignablePnc,
            Self::spec_as_raw(MidiCvStatus::RegisteredControl) == crate::ffi::kMIDICVStatusRegisteredControl,
            Self::spec_as_raw(MidiCvStatus::AssignableControl) == crate::ffi::kMIDICVStatusAssignableControl,
            Self::spec_as_raw(MidiCvStatus::RelRegisteredControl) == crate::ffi::kMIDICVStatusRelRegisteredControl,
            Self::spec_as_raw(MidiCvStatus::RelAssignableControl) == crate::ffi::kMIDICVStatusRelAssignableControl,
            Self::spec_as_raw(MidiCvStatus::PerNotePitchBend) == crate::ffi::kMIDICVStatusPerNotePitchBend,
            Self::spec_as_raw(MidiCvStatus::PerNoteMgmt) == crate::ffi::kMIDICVStatusPerNoteMgmt,
    {
    }

    /// Different cases have different raw values.
    pub proof fn lemma_raw_injective(a: Self, b: Self)
        requires
            a.spec_as_raw() == b.spec_as_raw(),
        ensures
            a == b,
    {
    }

    /// The raw value for this case.
    pub fn as_raw(self) -> (r: u32)
        ensures
            r == self.spec_as_raw(),
    {
        match self {
            MidiCvStatus::NoteOff => 0x8,
            MidiCvStatus::NoteOn => 0x9,
            MidiCvStatus::PolyPressure => 0xA,
            MidiCvStatus::ControlChange => 0xB,
            MidiCvStatus::ProgramChange => 0xC,
            MidiCvStatus::ChannelPressure => 0xD,
            MidiCvStatus::PitchBend => 0xE,
            MidiCvStatus::RegisteredPnc => 0x0,
            MidiCvStatus::AssignablePnc => 0x1,
            MidiCvStatus::RegisteredControl => 0x2,
            MidiCvStatus::AssignableControl => 0x3,
            MidiCvStatus::RelRegisteredControl => 0x4,
            MidiCvStatus::RelAssignableControl => 0x5,
            MidiCvStatus::PerNotePitchBend => 0x6,
            MidiCvStatus::PerNoteMgmt => 0xF,
        }
    }

    /// The case with this raw value, if there is one.
    pub fn from_raw(raw: u32) -> (r: Option<Self>)
        ensures
            r matches Some(v) ==> v.spec_as_raw() == raw,
            r is None ==> forall|v: Self| v.spec_as_raw() != raw,
    {
        match raw {
            0x8 => Some(MidiCvStatus::NoteOff),
            0x9 => Some(MidiCvStatus::NoteOn),
            0xA => Some(MidiCvStatus::PolyPressure),
            0xB => Some(MidiCvStatus::ControlChange),
            0xC => Some(MidiCvStatus::ProgramChange),
            0xD => Some(MidiCvStatus::ChannelPressure),
            0xE => Some(MidiCvStatus::PitchBend),
            0x0 => Some(MidiCvStatus::RegisteredPnc),
            0x1 => Some(MidiCvStatus::AssignablePnc),
            0x2 => Some(MidiCvStatus::RegisteredControl),
            0x3 => Some(MidiCvStatus::AssignableControl),
            0x4 => Some(MidiCvStatus::RelRegisteredControl),
            0x5 => Some(MidiCvStatus::RelAssignableControl),
            0x6 => Some(MidiCvStatus::PerNotePitchBend),
            0xF => Some(MidiCvStatus::PerNoteMgmt),
            _ => None,
        }
    }
}

/// System status bytes (`MIDISystemStatus`).
#[derive(Debug, Clone, Copy, PartialEq, Eq, Hash)]
pub enum MidiSystemStatus {
    StartOfExclusive,
    EndOfExclusive,
    Mtc,
    SongPosPointer,
    SongSelect,
    TuneRequest,
    TimingClock,
    Start,
    Continue,
    Stop,
    ActiveSensing,
    SystemReset,
}

impl MidiSystemStatus {
    /// The raw value this case stands for.
    pub open spec fn spec_as_raw(self) -> u32 {
        match self {
            MidiSystemStatus::StartOfExclusive => 0xF0u32,
            MidiSystemStatus::EndOfExclusive => 0xF7u32,
            MidiSystemStatus::Mtc => 0xF1u32,
            MidiSystemStatus::SongPosPointer => 0xF2u32,
            MidiSystemStatus::SongSelect => 0xF3u32,
            MidiSystemStatus::TuneRequest => 0xF6u32,
            MidiSystemStatus::TimingClock => 0xF8u32,
            MidiSystemStatus::Start => 0xFAu32,
            MidiSystemStatus::Continue => 0xFBu32,
            MidiSystemStatus::Stop => 0xFCu32,
            MidiSystemStatus::ActiveSensing => 0xFEu32,
            MidiSystemStatus::SystemReset => 0xFFu32,
        }
    }

    /// Each case stands for the code the CoreMIDI headers give it.
    pub proof fn lemma_coremidi_codes()
        ensures
            Self::spec_as_raw(MidiSystemStatus::StartOfExclusive) == crate::ffi::kMIDIStatusStartOfExclusive,
            Self::spec_as_raw(MidiSystemStatus::EndOfExclusive) == crate::ffi::kMIDIStatusEndOfExclusive,
            Self::spec_as_raw(MidiSystemStatus::Mtc) == crate::ffi::kMIDIStatusMtc,
            Self::spec_as_raw(MidiSystemStatus::SongPosPointer) == crate::ffi::kMIDIStatusSongPosPointer,
            Self::spec_as_raw(MidiSystemStatus::SongSelect) == crate::ffi::kMIDIStatusSongSelect,
            Self::spec_as_raw(MidiSystemStatus::TuneRequest) == crate::ffi::kMIDIStatusTuneRequest,
            Self::spec_as_raw(MidiSystemStatus::TimingClock) == crate::ffi::kMIDIStatusTimingClock,
            Self::spec_as_raw(MidiSystemStatus::Start) == crate::ffi::kMIDIStatusStart,
            Self::spec_as_raw(MidiSystemStatus::Continue) == crate::ffi::kMIDIStatusContinue,
            Self::spec_as_raw(MidiSystemStatus::Stop) == crate::ffi::kMIDIStatusStop,
            Self::spec_as_raw(MidiSystemStatus::ActiveSensing) == crate::ffi::kMIDIStatusActiveSensing,
            Self::spec_as_raw(MidiSystemStatus::SystemReset) == crate::ffi::kMIDIStatusSystemReset,
    {
    }

    /// Different cases have different raw values.
    pub proof fn lemma_raw_injective(a: Self, b: Self)
        requires
            a.spec_as_raw() == b.spec_as_raw(),
        ensures
            a == b,
    {
    }

    /// The raw value for this case.
    pub fn as_raw(self) -> (r: u32)
        ensures
            r == self.spec_as_raw(),
    {
        match self {
            MidiSystemStatus::StartOfExclusive => 0xF0,
            MidiSystemStatus::EndOfExclusive => 0xF7,
            MidiSystemStatus::Mtc => 0xF1,
            MidiSystemStatus::SongPosPointer => 0xF2,
            MidiSystemStatus::SongSelect => 0xF3,
            MidiSystemStatus::TuneRequest => 0xF6,
            MidiSystemStatus::TimingClock => 0xF8,
            MidiSystemStatus::Start => 0xFA,
            MidiSystemStatus::Continue => 0xFB,
            MidiSystemStatus::Stop => 0xFC,
            MidiSystemStatus::ActiveSensing => 0xFE,
            MidiSystemStatus::SystemReset => 0xFF,
        }
    }

    /// The case with this raw value, if there is one.
    pub fn from_raw(raw: u32) -> (r: Option<Self>)
        ensures
            r matches Some(v) ==> v.spec_as_raw() == raw,
            r is None ==> forall|v: Self| v.spec_as_raw() != raw,
    {
        match raw {
            0xF0 => Some(MidiSystemStatus::StartOfExclusive),
            0xF7 => Some(MidiSystemStatus::EndOfExclusive),
            0xF1 => Some(MidiSystemStatus::Mtc),
            0xF2 => Some(MidiSystemStatus::SongPosPointer),
            0xF3 => Some(MidiSystemStatus::SongSelect),
            0xF6 => Some(MidiSystemStatus::TuneRequest),
            0xF8 => Some(MidiSystemStatus::TimingClock),
            0xFA => Some(MidiSystemStatus::Start),
            0xFB => Some(MidiSystemStatus::Continue),
            0xFC => Some(MidiSystemStatus::Stop),
            0xFE => Some(MidiSystemStatus::ActiveSensing),
            0xFF => Some(MidiSystemStatus::SystemReset),
            _ => None,
        }
    }

    /// The header's alias for `ActiveSensing`.
    pub const ACTIVE_SENDING: MidiSystemStatus = MidiSystemStatus::ActiveSensing;
}

/// System-exclusive status nibbles (`MIDISysExStatus`).
#[derive(Debug, Clone, Copy, PartialEq, Eq, Hash)]
pub enum MidiSysExStatus {
    Complete,
    Start,
    Continue,
    End,
    MixedDataSetHeader,
    MixedDataSetPayload,
}

impl MidiSysExStatus {
    /// The raw value this case stands for.
    pub open spec fn spec_as_raw(self) -> u32 {
        match self {
            MidiSysExStatus::Complete => 0x0u32,
            MidiSysExStatus::Start => 0x1u32,
            MidiSysExStatus::Continue => 0x2u32,
            MidiSysExStatus::End => 0x3u32,
            MidiSysExStatus::MixedDataSetHeader => 0x8u32,
            MidiSysExStatus::MixedDataSetPayload => 0x9u32,
        }
    }

    /// Each case stands for the code the CoreMIDI headers give it.
    pub proof fn lemma_coremidi_codes()
        ensures
            Self::spec_as_raw(MidiSysExStatus::Complete) == crate::ffi::kMIDISysExStatusComplete,
            Self::spec_as_raw(MidiSysExStatus::Start) == crate::ffi::kMIDISysExStatusStart,
            Self::spec_as_raw(MidiSysExStatus::Continue) == crate::ffi::kMIDISysExStatusContinue,
            Self::spec_as_raw(MidiSysExStatus::End) == crate::ffi::kMIDISysExStatusEnd,
            Self::spec_as_raw(MidiSysExStatus::MixedDataSetHeader) == crate::ffi::kMIDISysExStatusMixedDataSetHeader,
            Self::spec_as_raw(MidiSysExStatus::MixedDataSetPayload) == crate::ffi::kMIDISysExStatusMixedDataSetPayload,
    {
    }

    /// Different cases have different raw values.
    pub proof fn lemma_raw_injective(a: Self, b: Self)
        requires
            a.spec_as_raw() == b.spec_as_raw(),
        ensures
            a == b,
    {
    }

    /// The raw value for this case.
    pub fn as_raw(self) -> (r: u32)
        ensures
            r == self.spec_as_raw(),
    {
        match self {
            MidiSysExStatus::Complete => 0x0,
            MidiSysExStatus::Start => 0x1,
            MidiSysExStatus::Continue => 0x2,
            MidiSysExStatus::End => 0x3,
            MidiSysExStatus::MixedDataSetHeader => 0x8,
            MidiSysExStatus::MixedDataSetPayload => 0x9,
        }
    }

    /// The case with this raw value, if there is one.
    pub fn from_raw(raw: u32) -> (r: Option<Self>)
        ensures
            r matches Some(v) ==> v.spec_as_raw() == raw,
            r is None ==> forall|v: Self| v.spec_as_raw() != raw,
    {
        match raw {
            0x0 => Some(MidiSysExStatus::Complete),
            0x1 => Some(MidiSysExStatus::Start),
            0x2 => Some(MidiSysExStatus::Continue),
            0x3 => Some(MidiSysExStatus::End),
            0x8 => Some(MidiSysExStatus::MixedDataSetHeader),
            0x9 => Some(MidiSysExStatus::MixedDataSetPayload),
            _ => None,
        }
    }
}

/// Utility message status nibbles (`MIDIUtilityStatus`).
#[derive(Debug, Clone, Copy, PartialEq, Eq, Hash)]
pub enum MidiUtilityStatus {
    Noop,
    JitterReductionClock,
    JitterReductionTimestamp,
    DeltaClockstampTicksPerQuarterNote,
    TicksSinceLastEvent,
}

impl MidiUtilityStatus {
    /// The raw value this case stands for.
    pub open spec fn spec_as_raw(self) -> u32 {
        match self {
            MidiUtilityStatus::Noop => 0x0u32,
            MidiUtilityStatus::JitterReductionClock => 0x1u32,
            MidiUtilityStatus::JitterReductionTimestamp => 0x2u32,
            MidiUtilityStatus::DeltaClockstampTicksPerQuarterNote => 0x3u32,
            MidiUtilityStatus::TicksSinceLastEvent => 0x4u32,
        }
    }

    /// Each case stands for the code the CoreMIDI headers give it.
    pub proof fn lemma_coremidi_codes()
        ensures
            Self::spec_as_raw(MidiUtilityStatus::Noop) == crate::ffi::kMIDIUtilityStatusNoop,
            Self::spec_as_raw(MidiUtilityStatus::JitterReductionClock) == crate::ffi::kMIDIUtilityStatusJitterReductionClock,
            Self::spec_as_raw(MidiUtilityStatus::JitterReductionTimestamp) == crate::ffi::kMIDIUtilityStatusJitterReductionTimestamp,
            Self::spec_as_raw(MidiUtilityStatus::DeltaClockstampTicksPerQuarterNote) == crate::ffi::kMIDIUtilityStatusDeltaClockstampTicksPerQuarterNote,
            Self::spec_as_raw(MidiUtilityStatus::TicksSinceLastEvent) == crate::ffi::kMIDIUtilityStatusTicksSinceLastEvent,
    {
    }

    /// Different cases have different raw values.
    pub proof fn lemma_raw_injective(a: Self, b: Self)
        requires
            a.spec_as_raw() == b.spec_as_raw(),
        ensures
            a == b,
    {
    }

    /// The raw value for this case.
    pub fn as_raw(self) -> (r: u32)
        ensures
            r == self.spec_as_raw(),
    {
        match self {
            MidiUtilityStatus::Noop => 0x0,
            MidiUtilityStatus::JitterReductionClock => 0x1,
            MidiUtilityStatus::JitterReductionTimestamp => 0x2,
            MidiUtilityStatus::DeltaClockstampTicksPerQuarterNote => 0x3,
            MidiUtilityStatus::TicksSinceLastEvent => 0x4,
        }
    }

    /// The case with this raw value, if there is one.
    pub fn from_raw(raw: u32) -> (r: Option<Self>)
        ensures
            r matches Some(v) ==> v.spec_as_raw() == raw,
            r is None ==> forall|v: Self| v.spec_as_raw() != raw,
    {
        match raw {
            0x0 => Some(MidiUtilityStatus::Noop),
            0x1 => Some(MidiUtilityStatus::JitterReductionClock),
            0x2 => Some(MidiUtilityStatus::JitterReductionTimestamp),
            0x3 => Some(MidiUtilityStatus::DeltaClockstampTicksPerQuarterNote),
            0x4 => Some(MidiUtilityStatus::TicksSinceLastEvent),
            _ => None,
        }
    }
}

/// UMP stream message statuses (`UMPStreamMessageStatus`).
#[derive(Debug, Clone, Copy, PartialEq, Eq, Hash)]
pub enum UmpStreamMessageStatus {
    EndpointDiscovery,
    EndpointInfoNotification,
    DeviceIdentityNotification,
    EndpointNameNotification,
    ProductInstanceIdNotification,
    StreamConfigurationRequest,
    StreamConfigurationNotification,
    FunctionBlockDiscovery,
    FunctionBlockInfoNotification,
    FunctionBlockNameNotification,
    StartOfClip,
    EndOfClip,
}

impl UmpStreamMessageStatus {
    /// The raw value this case stands for.
    pub open spec fn spec_as_raw(self) -> u32 {
        match self {
            UmpStreamMessageStatus::EndpointDiscovery => 0x00u32,
            UmpStreamMessageStatus::EndpointInfoNotification => 0x01u32,
            UmpStreamMessageStatus::DeviceIdentityNotification => 0x02u32,
            UmpStreamMessageStatus::EndpointNameNotification => 0x03u32,
            UmpStreamMessageStatus::ProductInstanceIdNotification => 0x04u32,
            UmpStreamMessageStatus::StreamConfigurationRequest => 0x05u32,
            UmpStreamMessageStatus::StreamConfigurationNotification => 0x06u32,
            UmpStreamMessageStatus::FunctionBlockDiscovery => 0x10u32,
            UmpStreamMessageStatus::FunctionBlockInfoNotification => 0x11u32,
            UmpStreamMessageStatus::FunctionBlockNameNotification => 0x12u32,
            UmpStreamMessageStatus::StartOfClip => 0x20u32,
            UmpStreamMessageStatus::EndOfClip => 0x21u32,
        }
    }

    /// Each case stands for the code the CoreMIDI headers give it.
    pub proof fn lemma_coremidi_codes()
        ensures
            Self::spec_as_raw(UmpStreamMessageStatus::EndpointDiscovery) == crate::ffi::kMIDIUMPStreamMessageStatusEndpointDiscovery,
            Self::spec_as_raw(UmpStreamMessageStatus::EndpointInfoNotification) == crate::ffi::kMIDIUMPStreamMessageStatusEndpointInfoNotification,
            Self::spec_as_raw(UmpStreamMessageStatus::DeviceIdentityNotification) == crate::ffi::kMIDIUMPStreamMessageStatusDeviceIdentityNotification,
            Self::spec_as_raw(UmpStreamMessageStatus::EndpointNameNotification) == crate::ffi::kMIDIUMPStreamMessageStatusEndpointNameNotification,
            Self::spec_as_raw(UmpStreamMessageStatus::ProductInstanceIdNotification) == crate::ffi::kMIDIUMPStreamMessageStatusProductInstanceIdNotification,
            Self::spec_as_raw(UmpStreamMessageStatus::StreamConfigurationRequest) == crate::ffi::kMIDIUMPStreamMessageStatusStreamConfigurationRequest,
            Self::spec_as_raw(UmpStreamMessageStatus::StreamConfigurationNotification) == crate::ffi::kMIDIUMPStreamMessageStatusStreamConfigurationNotification,
            Self::spec_as_raw(UmpStreamMessageStatus::FunctionBlockDiscovery) == crate::ffi::kMIDIUMPStreamMessageStatusFunctionBlockDiscovery,
            Self::spec_as_raw(UmpStreamMessageStatus::FunctionBlockInfoNotification) == crate::ffi::kMIDIUMPStreamMessageStatusFunctionBlockInfoNotification,
            Self::spec_as_raw(UmpStreamMessageStatus::FunctionBlockNameNotification) == crate::ffi::kMIDIUMPStreamMessageStatusFunctionBlockNameNotification,
            Self::spec_as_raw(UmpStreamMessageStatus::StartOfClip) == crate::ffi::kMIDIUMPStreamMessageStatusStartOfClip,
            Self::spec_as_raw(UmpStreamMessageStatus::EndOfClip) == crate::ffi::kMIDIUMPStreamMessageStatusEndOfClip,
    {
    }

    /// Different cases have different raw values.
    pub proof fn lemma_raw_injective(a: Self, b: Self)
        requires
            a.spec_as_raw() == b.spec_as_raw(),
        ensures
            a == b,
    {
    }

    /// The raw value for this case.
    pub fn as_raw(self) -> (r: u32)
        ensures
            r == self.spec_as_raw(),
    {
        match self {
            UmpStreamMessageStatus::EndpointDiscovery => 0x00,
            UmpStreamMessageStatus::EndpointInfoNotification => 0x01,
            UmpStreamMessageStatus::DeviceIdentityNotification => 0x02,
            UmpStreamMessageStatus::EndpointNameNotification => 0x03,
            UmpStreamMessageStatus::ProductInstanceIdNotification => 0x04,
            UmpStreamMessageStatus::StreamConfigurationRequest => 0x05,
            UmpStreamMessageStatus::StreamConfigurationNotification => 0x06,
            UmpStreamMessageStatus::FunctionBlockDiscovery => 0x10,
            UmpStreamMessageStatus::FunctionBlockInfoNotification => 0x11,
            UmpStreamMessageStatus::FunctionBlockNameNotification => 0x12,
            UmpStreamMessageStatus::StartOfClip => 0x20,
            UmpStreamMessageStatus::EndOfClip => 0x21,
        }
    }

    /// The case with this raw value, if there is one.
    pub fn from_raw(raw: u32) -> (r: Option<Self>)
        ensures
            r matches Some(v) ==> v.spec_as_raw() == raw,
            r is None ==> forall|v: Self| v.spec_as_raw() != raw,
    {
        match raw {
            0x00 => Some(UmpStreamMessageStatus::EndpointDiscovery),
            0x01 => Some(UmpStreamMessageStatus::EndpointInfoNotification),
            0x02 => Some(UmpStreamMessageStatus::DeviceIdentityNotification),
            0x03 => Some(UmpStreamMessageStatus::EndpointNameNotification),
            0x04 => Some(UmpStreamMessageStatus::ProductInstanceIdNotification),
            0x05 => Some(UmpStreamMessageStatus::StreamConfigurationRequest),
            0x06 => Some(UmpStreamMessageStatus::StreamConfigurationNotification),
            0x10 => Some(UmpStreamMessageStatus::FunctionBlockDiscovery),
            0x11 => Some(UmpStreamMessageStatus::FunctionBlockInfoNotification),
            0x12 => Some(UmpStreamMessageStatus::FunctionBlockNameNotification),
            0x20 => Some(UmpStreamMessageStatus::StartOfClip),
            0x21 => Some(UmpStreamMessageStatus::EndOfClip),
            _ => None,
        }
    }
}

/// UMP stream message formats (`UMPStreamMessageFormat`).
#[derive(Debug, Clone, Copy, PartialEq, Eq, Hash)]
pub enum UmpStreamMessageFormat {
    Complete,
    Start,
    Continuing,
    End,
}

impl UmpStreamMessageFormat {
    /// The raw value this case stands for.
    pub open spec fn spec_as_raw(self) -> u8 {
        match self {
            UmpStreamMessageFormat::Complete => 0x00u8,
            UmpStreamMessageFormat::Start => 0x01u8,
            UmpStreamMessageFormat::Continuing => 0x02u8,
            UmpStreamMessageFormat::End => 0x03u8,
        }
    }

    /// Each case stands for the code the CoreMIDI headers give it.
    pub proof fn lemma_coremidi_codes()
        ensures
            Self::spec_as_raw(UmpStreamMessageFormat::Complete) == crate::ffi::kMIDIUMPStreamMessageFormatComplete,
            Self::spec_as_raw(UmpStreamMessageFormat::Start) == crate::ffi::kMIDIUMPStreamMessageFormatStart,
            Self::spec_as_raw(UmpStreamMessageFormat::Continuing) == crate::ffi::kMIDIUMPStreamMessageFormatContinuing,
            Self::spec_as_raw(UmpStreamMessageFormat::End) == crate::ffi::kMIDIUMPStreamMessageFormatEnd,
    {
    }

    /// Different cases have different raw values.
    pub proof fn lemma_raw_injective(a: Self, b: Self)
        requires
            a.spec_as_raw() == b.spec_as_raw(),
        ensures
            a == b,
    {
    }

    /// The raw value for this case.
    pub fn as_raw(self) -> (r: u8)
        ensures
            r == self.spec_as_raw(),
    {
        match self {
            UmpStreamMessageFormat::Complete => 0x00,
            UmpStreamMessageFormat::Start => 0x01,
            UmpStreamMessageFormat::Continuing => 0x02,
            UmpStreamMessageFormat::End => 0x03,
        }
    }

    /// The case with this raw value, if there is one.
    pub fn from_raw(raw: u8) -> (r: Option<Self>)
        ensures
            r matches Some(v) ==> v.spec_as_raw() == raw,
            r is None ==> forall|v: Self| v.spec_as_raw() != raw,
    {
        match raw {
            0x00 => Some(UmpStreamMessageFormat::Complete),
            0x01 => Some(UmpStreamMessageFormat::Start),
            0x02 => Some(UmpStreamMessageFormat::Continuing),
            0x03 => Some(UmpStreamMessageFormat::End),
            _ => None,
        }
    }
}

/// Note attribute types (`MIDINoteAttribute`).
#[derive(Debug, Clone, Copy, PartialEq, Eq, Hash)]
pub enum MidiNoteAttribute {
    NoAttribute,
    ManufacturerSpecific,
    ProfileSpecific,
    Pitch,
}

impl MidiNoteAttribute {
    /// The raw value this case stands for.
    pub open spec fn spec_as_raw(self) -> u8 {
        match self {
            MidiNoteAttribute::NoAttribute => 0x0u8,
            MidiNoteAttribute::ManufacturerSpecific => 0x1u8,
            MidiNoteAttribute::ProfileSpecific => 0x2u8,
            MidiNoteAttribute::Pitch => 0x3u8,
        }
    }

    /// Each case stands for the code the CoreMIDI headers give it.
    pub proof fn lemma_coremidi_codes()
        ensures
            Self::spec_as_raw(MidiNoteAttribute::NoAttribute) == crate::ffi::kMIDINoteAttributeNone,
            Self::spec_as_raw(MidiNoteAttribute::ManufacturerSpecific) == crate::ffi::kMIDINoteAttributeManufacturerSpecific,
            Self::spec_as_raw(MidiNoteAttribute::ProfileSpecific) == crate::ffi::kMIDINoteAttributeProfileSpecific,
            Self::spec_as_raw(MidiNoteAttribute::Pitch) == crate::ffi::kMIDINoteAttributePitch,
    {
    }

    /// Different cases have different raw values.
    pub proof fn lemma_raw_injective(a: Self, b: Self)
        requires
            a.spec_as_raw() == b.spec_as_raw(),
        ensures
            a == b,
    {
    }

    /// The raw value for this case.
    pub fn as_raw(self) -> (r: u8)
        ensures
            r == self.spec_as_raw(),
    {
        match self {
            MidiNoteAttribute::NoAttribute => 0x0,
            MidiNoteAttribute::ManufacturerSpecific => 0x1,
            MidiNoteAttribute::ProfileSpecific => 0x2,
            MidiNoteAttribute::Pitch => 0x3,
        }
    }

    /// The case with this raw value, if there is one.
    pub fn from_raw(raw: u8) -> (r: Option<Self>)
        ensures
            r matches Some(v) ==> v.spec_as_raw() == raw,
            r is None ==> forall|v: Self| v.spec_as_raw() != raw,
    {
        match raw {
            0x0 => Some(MidiNoteAttribute::NoAttribute),
            0x1 => Some(MidiNoteAttribute::ManufacturerSpecific),
            0x2 => Some(MidiNoteAttribute::ProfileSpecific),
            0x3 => Some(MidiNoteAttribute::Pitch),
            _ => None,
        }
    }
}


/// A 64-bit UMP message (`MIDIMessage_64`).
#[derive(Debug, Clone, Copy, PartialEq, Eq, Hash)]
pub struct MidiMessage64(pub crate::ffi::MIDIMessage_64);

impl MidiMessage64 {
    /// The message's words in order.
    pub open spec fn spec_words(self) -> Seq<u32> {
        seq![self.0.word0, self.0.word1]
    }

    /// A message made of these words.
    pub fn new(word0: u32, word1: u32) -> (r: Self)
        ensures
            r.spec_words() == seq![word0, word1],
    {
        MidiMessage64(crate::ffi::MIDIMessage_64 { word0, word1 })
    }

    /// The wrapped C struct.
    pub fn as_raw(self) -> (r: crate::ffi::MIDIMessage_64)
        ensures
            r == self.0,
    {
        self.0
    }

    /// Wraps a C struct.
    pub fn from_raw(raw: crate::ffi::MIDIMessage_64) -> (r: Self)
        ensures
            r.0 == raw,
    {
        MidiMessage64(raw)
    }

    /// The message's words in order.
    pub fn words(self) -> (r: [u32; 2])
        ensures
            r@ == self.spec_words(),
    {
        let r = [self.0.word0, self.0.word1];
        assert(r@ =~= self.spec_words());
        r
    }

    /// The message type that the first word's top nibble names.
    pub fn message_type(self) -> (r: Option<MidiMessageType>)
        ensures
            r == MidiMessageType::spec_from_up_word(self.0.word0),
    {
        MidiMessageType::from_up_word(self.0.word0)
    }
}

impl From<crate::ffi::MIDIMessage_64> for MidiMessage64 {
    fn from(raw: crate::ffi::MIDIMessage_64) -> (r: Self) {
        MidiMessage64(raw)
    }
}

impl vstd::std_specs::convert::FromSpecImpl<crate::ffi::MIDIMessage_64> for MidiMessage64 {
    open spec fn obeys_from_spec() -> bool {
        true
    }

    open spec fn from_spec(raw: crate::ffi::MIDIMessage_64) -> Self {
        MidiMessage64(raw)
    }
}

impl From<MidiMessage64> for crate::ffi::MIDIMessage_64 {
    fn from(message: MidiMessage64) -> (r: Self) {
        message.0
    }
}

impl vstd::std_specs::convert::FromSpecImpl<MidiMessage64> for crate::ffi::MIDIMessage_64 {
    open spec fn obeys_from_spec() -> bool {
        true
    }

    open spec fn from_spec(message: MidiMessage64) -> Self {
        message.0
    }
}

impl From<[u32; 2]> for MidiMessage64 {
    fn from(words: [u32; 2]) -> (r: Self) {
        MidiMessage64(crate::ffi::MIDIMessage_64 { word0: words[0], word1: words[1] })
    }
}

impl vstd::std_specs::convert::FromSpecImpl<[u32; 2]> for MidiMessage64 {
    open spec fn obeys_from_spec() -> bool {
        true
    }

    open spec fn from_spec(words: [u32; 2]) -> Self {
        MidiMessage64(crate::ffi::MIDIMessage_64 { word0: words@[0], word1: words@[1] })
    }
}

impl From<MidiMessage64> for [u32; 2] {
    fn from(message: MidiMessage64) -> (r: Self) {
        [message.0.word0, message.0.word1]
    }
}

impl vstd::std_specs::convert::FromSpecImpl<MidiMessage64> for [u32; 2] {
    open spec fn obeys_from_spec() -> bool {
        true
    }

    open spec fn from_spec(message: MidiMessage64) -> Self {
        [message.0.word0, message.0.word1]
    }
}

/// A 96-bit UMP message (`MIDIMessage_96`).
#[derive(Debug, Clone, Copy, PartialEq, Eq, Hash)]
pub struct MidiMessage96(pub crate::ffi::MIDIMessage_96);

impl MidiMessage96 {
    /// The message's words in order.
    pub open spec fn spec_words(self) -> Seq<u32> {
        seq![self.0.word0, self.0.word1, self.0.word2]
    }

    /// A message made of these words.
    pub fn new(word0: u32, word1: u32, word2: u32) -> (r: Self)
        ensures
            r.spec_words() == seq![word0, word1, word2],
    {
        MidiMessage96(crate::ffi::MIDIMessage_96 { word0, word1, word2 })
    }

    /// The wrapped C struct.
    pub fn as_raw(self) -> (r: crate::ffi::MIDIMessage_96)
        ensures
            r == self.0,
    {
        self.0
    }

    /// Wraps a C struct.
    pub fn from_raw(raw: crate::ffi::MIDIMessage_96) -> (r: Self)
        ensures
            r.0 == raw,
    {
        MidiMessage96(raw)
    }

    /// The message's words in order.
    pub fn words(self) -> (r: [u32; 3])
        ensures
            r@ == self.spec_words(),
    {
        let r = [self.0.word0, self.0.word1, self.0.word2];
        assert(r@ =~= self.spec_words());
        r
    }

    /// The message type that the first word's top nibble names.
    pub fn message_type(self) -> (r: Option<MidiMessageType>)
        ensures
            r == MidiMessageType::spec_from_up_word(self.0.word0),
    {
        MidiMessageType::from_up_word(self.0.word0)
    }
}

impl From<crate::ffi::MIDIMessage_96> for MidiMessage96 {
    fn from(raw: crate::ffi::MIDIMessage_96) -> (r: Self) {
        MidiMessage96(raw)
    }
}

impl vstd::std_specs::convert::FromSpecImpl<crate::ffi::MIDIMessage_96> for MidiMessage96 {
    open spec fn obeys_from_spec() -> bool {
        true
    }

    open spec fn from_spec(raw: crate::ffi::MIDIMessage_96) -> Self {
        MidiMessage96(raw)
    }
}

impl From<MidiMessage96> for crate::ffi::MIDIMessage_96 {
    fn from(message: MidiMessage96) -> (r: Self) {
        message.0
    }
}

impl vstd::std_specs::convert::FromSpecImpl<MidiMessage96> for crate::ffi::MIDIMessage_96 {
    open spec fn obeys_from_spec() -> bool {
        true
    }

    open spec fn from_spec(message: MidiMessage96) -> Self {
        message.0
    }
}

impl From<[u32; 3]> for MidiMessage96 {
    fn from(words: [u32; 3]) -> (r: Self) {
        MidiMessage96(crate::ffi::MIDIMessage_96 { word0: words[0], word1: words[1], word2: words[2] })
    }
}

impl vstd::std_specs::convert::FromSpecImpl<[u32; 3]> for MidiMessage96 {
    open spec fn obeys_from_spec() -> bool {
        true
    }

    open spec fn from_spec(words: [u32; 3]) -> Self {
        MidiMessage96(crate::ffi::MIDIMessage_96 { word0: words@[0], word1: words@[1], word2: words@[2] })
    }
}

impl From<MidiMessage96> for [u32; 3] {
    fn from(message: MidiMessage96) -> (r: Self) {
        [message.0.word0, message.0.word1, message.0.word2]
    }
}

impl vstd::std_specs::convert::FromSpecImpl<MidiMessage96> for [u32; 3] {
    open spec fn obeys_from_spec() -> bool {
        true
    }

    open spec fn from_spec(message: MidiMessage96) -> Self {
        [message.0.word0, message.0.word1, message.0.word2]
    }
}

/// A 128-bit UMP message (`MIDIMessage_128`).
#[derive(Debug, Clone, Copy, PartialEq, Eq, Hash)]
pub struct MidiMessage128(pub crate::ffi::MIDIMessage_128);

impl MidiMessage128 {
    /// The message's words in order.
    pub open spec fn spec_words(self) -> Seq<u32> {
        seq![self.0.word0, self.0.word1, self.0.word2, self.0.word3]
    }

    /// A message made of these words.
    pub fn new(word0: u32, word1: u32, word2: u32, word3: u32) -> (r: Self)
        ensures
            r.spec_words() == seq![word0, word1, word2, word3],
    {
        MidiMessage128(crate::ffi::MIDIMessage_128 { word0, word1, word2, word3 })
    }

    /// The wrapped C struct.
    pub fn as_raw(self) -> (r: crate::ffi::MIDIMessage_128)
        ensures
            r == self.0,
    {
        self.0
    }

    /// Wraps a C struct.
    pub fn from_raw(raw: crate::ffi::MIDIMessage_128) -> (r: Self)
        ensures
            r.0 == raw,
    {
        MidiMessage128(raw)
    }

    /// The message's words in order.
    pub fn words(self) -> (r: [u32; 4])
        ensures
            r@ == self.spec_words(),
    {
        let r = [self.0.word0, self.0.word1, self.0.word2, self.0.word3];
        assert(r@ =~= self.spec_words());
        r
    }

    /// The message type that the first word's top nibble names.
    pub fn message_type(self) -> (r: Option<MidiMessageType>)
        ensures
            r == MidiMessageType::spec_from_up_word(self.0.word0),
    {
        MidiMessageType::from_up_word(self.0.word0)
    }
}

impl From<crate::ffi::MIDIMessage_128> for MidiMessage128 {
    fn from(raw: crate::ffi::MIDIMessage_128) -> (r: Self) {
        MidiMessage128(raw)
    }
}

impl vstd::std_specs::convert::FromSpecImpl<crate::ffi::MIDIMessage_128> for MidiMessage128 {
    open spec fn obeys_from_spec() -> bool {
        true
    }

    open spec fn from_spec(raw: crate::ffi::MIDIMessage_128) -> Self {
        MidiMessage128(raw)
    }
}

impl From<MidiMessage128> for crate::ffi::MIDIMessage_128 {
    fn from(message: MidiMessage128) -> (r: Self) {
        message.0
    }
}

impl vstd::std_specs::convert::FromSpecImpl<MidiMessage128> for crate::ffi::MIDIMessage_128 {
    open spec fn obeys_from_spec() -> bool {
        true
    }

    open spec fn from_spec(message: MidiMessage128) -> Self {
        message.0
    }
}

impl From<[u32; 4]> for MidiMessage128 {
    fn from(words: [u32; 4]) -> (r: Self) {
        MidiMessage128(crate::ffi::MIDIMessage_128 { word0: words[0], word1: words[1], word2: words[2], word3: words[3] })
    }
}

impl vstd::std_specs::convert::FromSpecImpl<[u32; 4]> for MidiMessage128 {
    open spec fn obeys_from_spec() -> bool {
        true
    }

    open spec fn from_spec(words: [u32; 4]) -> Self {
        MidiMessage128(crate::ffi::MIDIMessage_128 { word0: words@[0], word1: words@[1], word2: words@[2], word3: words@[3] })
    }
}

impl From<MidiMessage128> for [u32; 4] {
    fn from(message: MidiMessage128) -> (r: Self) {
        [message.0.word0, message.0.word1, message.0.word2, message.0.word3]
    }
}

impl vstd::std_specs::convert::FromSpecImpl<MidiMessage128> for [u32; 4] {
    open spec fn obeys_from_spec() -> bool {
        true
    }

    open spec fn from_spec(message: MidiMessage128) -> Self {
        [message.0.word0, message.0.word1, message.0.word2, message.0.word3]
    }
}

/// Program-change option bits (`MIDIProgramChangeOptions`).
#[derive(Debug, Clone, Copy, PartialEq, Eq, Hash, Default)]
pub struct MidiProgramChangeOptions(u8);

impl MidiProgramChangeOptions {
    /// The `BANK_VALID` option bit.
    #[allow(non_snake_case)]
    pub fn BANK_VALID() -> (r: MidiProgramChangeOptions)
        ensures
            r.spec_bits() == 0x1,
    {
        MidiProgramChangeOptions(0x1)
    }

    /// The raw option bits.
    pub closed spec fn spec_bits(self) -> u8 {
        self.0
    }

    /// No options set.
    pub fn empty() -> (r: Self)
        ensures
            r.spec_bits() == 0,
    {
        MidiProgramChangeOptions(0)
    }

    /// The raw option bits.
    pub fn bits(self) -> (r: u8)
        ensures
            r == self.spec_bits(),
    {
        self.0
    }

    /// Wraps raw bits, unknown ones included.
    pub fn from_bits_retain(bits: u8) -> (r: Self)
        ensures
            r.spec_bits() == bits,
    {
        MidiProgramChangeOptions(bits)
    }

    /// Whether every bit of `other` is set in `self`.
    pub fn contains(self, other: Self) -> (r: bool)
        ensures
            r == (self.spec_bits() & other.spec_bits() == other.spec_bits()),
    {
        (self.0 & other.0) == other.0
    }

    /// Whether no bit is set.
    pub fn is_empty(self) -> (r: bool)
        ensures
            r == (self.spec_bits() == 0),
    {
        self.0 == 0
    }
}

impl MidiProgramChangeOptions {
    /// The operators and conversions act on the raw bits.
    pub proof fn lemma_bit_ops(a: Self, b: Self, bits: u8)
        ensures
            <Self as vstd::std_specs::ops::BitOrSpec>::bitor_spec(a, b).spec_bits() == a.spec_bits() | b.spec_bits(),
            <Self as vstd::std_specs::ops::BitAndSpec>::bitand_spec(a, b).spec_bits() == a.spec_bits() & b.spec_bits(),
            <Self as vstd::std_specs::ops::BitXorSpec>::bitxor_spec(a, b).spec_bits() == a.spec_bits() ^ b.spec_bits(),
            <Self as vstd::std_specs::convert::FromSpec<u8>>::from_spec(bits).spec_bits() == bits,
            <u8 as vstd::std_specs::convert::FromSpec<Self>>::from_spec(a) == a.spec_bits(),
    {
    }
}

impl From<u8> for MidiProgramChangeOptions {
    fn from(bits: u8) -> (r: Self) {
        MidiProgramChangeOptions(bits)
    }
}

impl vstd::std_specs::convert::FromSpecImpl<u8> for MidiProgramChangeOptions {
    open spec fn obeys_from_spec() -> bool {
        true
    }

    closed spec fn from_spec(bits: u8) -> Self {
        MidiProgramChangeOptions(bits)
    }
}

impl From<MidiProgramChangeOptions> for u8 {
    fn from(options: MidiProgramChangeOptions) -> (r: Self) {
        options.0
    }
}

impl vstd::std_specs::convert::FromSpecImpl<MidiProgramChangeOptions> for u8 {
    open spec fn obeys_from_spec() -> bool {
        true
    }

    closed spec fn from_spec(options: MidiProgramChangeOptions) -> Self {
        options.0
    }
}

impl core::ops::BitOr for MidiProgramChangeOptions {
    type Output = Self;

    fn bitor(self, rhs: Self) -> (r: Self) {
        MidiProgramChangeOptions(self.0 | rhs.0)
    }
}

impl vstd::std_specs::ops::BitOrSpecImpl for MidiProgramChangeOptions {
    open spec fn obeys_bitor_spec() -> bool {
        true
    }

    open spec fn bitor_req(self, rhs: Self) -> bool {
        true
    }

    closed spec fn bitor_spec(self, rhs: Self) -> Self {
        MidiProgramChangeOptions(self.0 | rhs.0)
    }
}

impl core::ops::BitOrAssign for MidiProgramChangeOptions {
    fn bitor_assign(&mut self, rhs: Self)
        ensures
            final(self).spec_bits() == old(self).spec_bits() | rhs.spec_bits(),
    {
        self.0 = self.0 | rhs.0;
    }
}

impl core::ops::BitAnd for MidiProgramChangeOptions {
    type Output = Self;

    fn bitand(self, rhs: Self) -> (r: Self) {
        MidiProgramChangeOptions(self.0 & rhs.0)
    }
}

impl vstd::std_specs::ops::BitAndSpecImpl for MidiProgramChangeOptions {
    open spec fn obeys_bitand_spec() -> bool {
        true
    }

    open spec fn bitand_req(self, rhs: Self) -> bool {
        true
    }

    closed spec fn bitand_spec(self, rhs: Self) -> Self {
        MidiProgramChangeOptions(self.0 & rhs.0)
    }
}

impl core::ops::BitAndAssign for MidiProgramChangeOptions {
    fn bitand_assign(&mut self, rhs: Self)
        ensures
            final(self).spec_bits() == old(self).spec_bits() & rhs.spec_bits(),
    {
        self.0 = self.0 & rhs.0;
    }
}

impl core::ops::BitXor for MidiProgramChangeOptions {
    type Output = Self;

    fn bitxor(self, rhs: Self) -> (r: Self) {
        MidiProgramChangeOptions(self.0 ^ rhs.0)
    }
}

impl vstd::std_specs::ops::BitXorSpecImpl for MidiProgramChangeOptions {
    open spec fn obeys_bitxor_spec() -> bool {
        true
    }

    open spec fn bitxor_req(self, rhs: Self) -> bool {
        true
    }

    closed spec fn bitxor_spec(self, rhs: Self) -> Self {
        MidiProgramChangeOptions(self.0 ^ rhs.0)
    }
}

impl core::ops::BitXorAssign for MidiProgramChangeOptions {
    fn bitxor_assign(&mut self, rhs: Self)
        ensures
            final(self).spec_bits() == old(self).spec_bits() ^ rhs.spec_bits(),
    {
        self.0 = self.0 ^ rhs.0;
    }
}

/// Per-note management option bits (`MIDIPerNoteManagementOptions`).
#[derive(Debug, Clone, Copy, PartialEq, Eq, Hash, Default)]
pub struct MidiPerNoteManagementOptions(u8);

impl MidiPerNoteManagementOptions {
    /// The `RESET` option bit.
    #[allow(non_snake_case)]
    pub fn RESET() -> (r: MidiPerNoteManagementOptions)
        ensures
            r.spec_bits() == 0x1,
    {
        MidiPerNoteManagementOptions(0x1)
    }

    /// The `DETACH` option bit.
    #[allow(non_snake_case)]
    pub fn DETACH() -> (r: MidiPerNoteManagementOptions)
        ensures
            r.spec_bits() == 0x2,
    {
        MidiPerNoteManagementOptions(0x2)
    }

    /// The raw option bits.
    pub closed spec fn spec_bits(self) -> u8 {
        self.0
    }

    /// No options set.
    pub fn empty() -> (r: Self)
        ensures
            r.spec_bits() == 0,
    {
        MidiPerNoteManagementOptions(0)
    }

    /// The raw option bits.
    pub fn bits(self) -> (r: u8)
        ensures
            r == self.spec_bits(),
    {
        self.0
    }

    /// Wraps raw bits, unknown ones included.
    pub fn from_bits_retain(bits: u8) -> (r: Self)
        ensures
            r.spec_bits() == bits,
    {
        MidiPerNoteManagementOptions(bits)
    }

    /// Whether every bit of `other` is set in `self`.
    pub fn contains(self, other: Self) -> (r: bool)
        ensures
            r == (self.spec_bits() & other.spec_bits() == other.spec_bits()),
    {
        (self.0 & other.0) == other.0
    }

    /// Whether no bit is set.
    pub fn is_empty(self) -> (r: bool)
        ensures
            r == (self.spec_bits() == 0),
    {
        self.0 == 0
    }
}

impl MidiPerNoteManagementOptions {
    /// The operators and conversions act on the raw bits.
    pub proof fn lemma_bit_ops(a: Self, b: Self, bits: u8)
        ensures
            <Self as vstd::std_specs::ops::BitOrSpec>::bitor_spec(a, b).spec_bits() == a.spec_bits() | b.spec_bits(),
            <Self as vstd::std_specs::ops::BitAndSpec>::bitand_spec(a, b).spec_bits() == a.spec_bits() & b.spec_bits(),
            <Self as vstd::std_specs::ops::BitXorSpec>::bitxor_spec(a, b).spec_bits() == a.spec_bits() ^ b.spec_bits(),
            <Self as vstd::std_specs::convert::FromSpec<u8>>::from_spec(bits).spec_bits() == bits,
            <u8 as vstd::std_specs::convert::FromSpec<Self>>::from_spec(a) == a.spec_bits(),
    {
    }
}

impl From<u8> for MidiPerNoteManagementOptions {
    fn from(bits: u8) -> (r: Self) {
        MidiPerNoteManagementOptions(bits)
    }
}

impl vstd::std_specs::convert::FromSpecImpl<u8> for MidiPerNoteManagementOptions {
    open spec fn obeys_from_spec() -> bool {
        true
    }

    closed spec fn from_spec(bits: u8) -> Self {
        MidiPerNoteManagementOptions(bits)
    }
}

impl From<MidiPerNoteManagementOptions> for u8 {
    fn from(options: MidiPerNoteManagementOptions) -> (r: Self) {
        options.0
    }
}

impl vstd::std_specs::convert::FromSpecImpl<MidiPerNoteManagementOptions> for u8 {
    open spec fn obeys_from_spec() -> bool {
        true
    }

    closed spec fn from_spec(options: MidiPerNoteManagementOptions) -> Self {
        options.0
    }
}

impl core::ops::BitOr for MidiPerNoteManagementOptions {
    type Output = Self;

    fn bitor(self, rhs: Self) -> (r: Self) {
        MidiPerNoteManagementOptions(self.0 | rhs.0)
    }
}

impl vstd::std_specs::ops::BitOrSpecImpl for MidiPerNoteManagementOptions {
    open spec fn obeys_bitor_spec() -> bool {
        true
    }

    open spec fn bitor_req(self, rhs: Self) -> bool {
        true
    }

    closed spec fn bitor_spec(self, rhs: Self) -> Self {
        MidiPerNoteManagementOptions(self.0 | rhs.0)
    }
}

impl core::ops::BitOrAssign for MidiPerNoteManagementOptions {
    fn bitor_assign(&mut self, rhs: Self)
        ensures
            final(self).spec_bits() == old(self).spec_bits() | rhs.spec_bits(),
    {
        self.0 = self.0 | rhs.0;
    }
}

impl core::ops::BitAnd for MidiPerNoteManagementOptions {
    type Output = Self;

    fn bitand(self, rhs: Self) -> (r: Self) {
        MidiPerNoteManagementOptions(self.0 & rhs.0)
    }
}

impl vstd::std_specs::ops::BitAndSpecImpl for MidiPerNoteManagementOptions {
    open spec fn obeys_bitand_spec() -> bool {
        true
    }

    open spec fn bitand_req(self, rhs: Self) -> bool {
        true
    }

    closed spec fn bitand_spec(self, rhs: Self) -> Self {
        MidiPerNoteManagementOptions(self.0 & rhs.0)
    }
}

impl core::ops::BitAndAssign for MidiPerNoteManagementOptions {
    fn bitand_assign(&mut self, rhs: Self)
        ensures
            final(self).spec_bits() == old(self).spec_bits() & rhs.spec_bits(),
    {
        self.0 = self.0 & rhs.0;
    }
}

impl core::ops::BitXor for MidiPerNoteManagementOptions {
    type Output = Self;

    fn bitxor(self, rhs: Self) -> (r: Self) {
        MidiPerNoteManagementOptions(self.0 ^ rhs.0)
    }
}

impl vstd::std_specs::ops::BitXorSpecImpl for MidiPerNoteManagementOptions {
    open spec fn obeys_bitxor_spec() -> bool {
        true
    }

    open spec fn bitxor_req(self, rhs: Self) -> bool {
        true
    }

    closed spec fn bitxor_spec(self, rhs: Self) -> Self {
        MidiPerNoteManagementOptions(self.0 ^ rhs.0)
    }
}

impl core::ops::BitXorAssign for MidiPerNoteManagementOptions {
    fn bitxor_assign(&mut self, rhs: Self)
        ensures
            final(self).spec_bits() == old(self).spec_bits() ^ rhs.spec_bits(),
    {
        self.0 = self.0 ^ rhs.0;
    }
}

} // verus!
