//! Thru-connection parameters and their `MIDIThruConnectionParams` blob.
//!
//! The blob is the 204-byte `MIDIThruConnectionParams` struct followed by
//! `numControlTransforms` 8-byte `MIDIControlTransform`s and `numMaps`
//! 16-bit map entries, all little-endian.
pub mod params;

pub use params::{connection_refs_from_bytes, ThruConnectionParams, ThruParamsView};
use vstd::prelude::*;
use vstd::bytes::{spec_u16_to_le_bytes, spec_u32_to_le_bytes, u16_to_le_bytes, u32_to_le_bytes};
use vstd::string::StringExecFns;
use crate::error::{decimal_string, decimal_text, MidiError, MidiResult};
use crate::ffi;
use crate::wire::{read_u16, read_u32, u16_at, u32_at};

verus! {

broadcast use vstd::seq_lib::group_seq_properties;

/// `MIDITransformType`.
#[derive(Debug, Clone, Copy, PartialEq, Eq, Hash)]
pub enum MidiTransformKind {
    /// `kMIDITransform_None`.
    NoTransform,
    FilterOut,
    MapControl,
    Add,
    Scale,
    MinValue,
    MaxValue,
    MapValue,
}

impl MidiTransformKind {
    /// The raw `MIDITransformType` value.
    pub open spec fn spec_as_raw(self) -> u16 {
        match self {
            MidiTransformKind::NoTransform => 0u16,
            MidiTransformKind::FilterOut => 1u16,
            MidiTransformKind::MapControl => 2u16,
            MidiTransformKind::Add => 8u16,
            MidiTransformKind::Scale => 9u16,
            MidiTransformKind::MinValue => 10u16,
            MidiTransformKind::MaxValue => 11u16,
            MidiTransformKind::MapValue => 12u16,
        }
    }

    /// Each case stands for the code the CoreMIDI headers give it.
    pub proof fn lemma_coremidi_codes()
        ensures
            Self::spec_as_raw(MidiTransformKind::NoTransform) == crate::ffi::kMIDITransform_None,
            Self::spec_as_raw(MidiTransformKind::FilterOut) == crate::ffi::kMIDITransform_FilterOut,
            Self::spec_as_raw(MidiTransformKind::MapControl) == crate::ffi::kMIDITransform_MapControl,
            Self::spec_as_raw(MidiTransformKind::Add) == crate::ffi::kMIDITransform_Add,
            Self::spec_as_raw(MidiTransformKind::Scale) == crate::ffi::kMIDITransform_Scale,
            Self::spec_as_raw(MidiTransformKind::MinValue) == crate::ffi::kMIDITransform_MinValue,
            Self::spec_as_raw(MidiTransformKind::MaxValue) == crate::ffi::kMIDITransform_MaxValue,
            Self::spec_as_raw(MidiTransformKind::MapValue) == crate::ffi::kMIDITransform_MapValue,
    {
    }

    /// The kind with this raw value, if there is one.
    pub open spec fn spec_from_raw(raw: u16) -> Option<Self> {
        if raw == 0 {
            Some(MidiTransformKind::NoTransform)
        } else if raw == 1 {
            Some(MidiTransformKind::FilterOut)
        } else if raw == 2 {
            Some(MidiTransformKind::MapControl)
        } else if raw == 8 {
            Some(MidiTransformKind::Add)
        } else if raw == 9 {
            Some(MidiTransformKind::Scale)
        } else if raw == 10 {
            Some(MidiTransformKind::MinValue)
        } else if raw == 11 {
            Some(MidiTransformKind::MaxValue)
        } else if raw == 12 {
            Some(MidiTransformKind::MapValue)
        } else {
            None
        }
    }

    /// Decoding a code gives the case that stands for it, and only a code
    /// some case stands for decodes.
    pub proof fn lemma_decode_inverts_codes(raw: u16, k: Self)
        ensures
            Self::spec_from_raw(raw) matches Some(d) ==> d.spec_as_raw() == raw,
            Self::spec_from_raw(k.spec_as_raw()) == Some(k),
            (Self::spec_from_raw(raw) is None) <==> (forall|c: Self| c.spec_as_raw() != raw),
    {
        if Self::spec_from_raw(raw) is None {
            assert forall|c: Self| c.spec_as_raw() != raw by {
                match c { _ => {} }
            }
        }
    }

    /// Every kind is found again from its raw value.
    pub proof fn lemma_raw_roundtrip(k: Self)
        ensures
            Self::spec_from_raw(k.spec_as_raw()) == Some(k),
    {
    }

    /// The raw `MIDITransformType` value.
    pub fn as_raw(self) -> (r: u16)
        ensures
            r == self.spec_as_raw(),
    {
        match self {
            MidiTransformKind::NoTransform => 0,
            MidiTransformKind::FilterOut => 1,
            MidiTransformKind::MapControl => 2,
            MidiTransformKind::Add => 8,
            MidiTransformKind::Scale => 9,
            MidiTransformKind::MinValue => 10,
            MidiTransformKind::MaxValue => 11,
            MidiTransformKind::MapValue => 12,
        }
    }

    /// The kind with this raw value, if there is one.
    pub fn from_raw(raw: u16) -> (r: Option<Self>)
        ensures
            r == Self::spec_from_raw(raw),
    {
        match raw {
            0 => Some(MidiTransformKind::NoTransform),
            1 => Some(MidiTransformKind::FilterOut),
            2 => Some(MidiTransformKind::MapControl),
            8 => Some(MidiTransformKind::Add),
            9 => Some(MidiTransformKind::Scale),
            10 => Some(MidiTransformKind::MinValue),
            11 => Some(MidiTransformKind::MaxValue),
            12 => Some(MidiTransformKind::MapValue),
            _ => None,
        }
    }
}

/// `MIDITransformControlType`.
#[derive(Debug, Clone, Copy, PartialEq, Eq, Hash)]
pub enum MidiControlType {
    SevenBit,
    FourteenBit,
    SevenBitRpn,
    FourteenBitRpn,
    SevenBitNrpn,
    FourteenBitNrpn,
}

impl MidiControlType {
    /// The raw control-type value.
    pub open spec fn spec_as_raw(self) -> u8 {
        match self {
            MidiControlType::SevenBit => 0u8,
            MidiControlType::FourteenBit => 1u8,
            MidiControlType::SevenBitRpn => 2u8,
            MidiControlType::FourteenBitRpn => 3u8,
            MidiControlType::SevenBitNrpn => 4u8,
            MidiControlType::FourteenBitNrpn => 5u8,
        }
    }

    /// Each case stands for the code the CoreMIDI headers give it.
    pub proof fn lemma_coremidi_codes()
        ensures
            Self::spec_as_raw(MidiControlType::SevenBit) == crate::ffi::kMIDIControlType_7Bit,
            Self::spec_as_raw(MidiControlType::FourteenBit) == crate::ffi::kMIDIControlType_14Bit,
            Self::spec_as_raw(MidiControlType::SevenBitRpn) == crate::ffi::kMIDIControlType_7BitRPN,
            Self::spec_as_raw(MidiControlType::FourteenBitRpn) == crate::ffi::kMIDIControlType_14BitRPN,
            Self::spec_as_raw(MidiControlType::SevenBitNrpn) == crate::ffi::kMIDIControlType_7BitNRPN,
            Self::spec_as_raw(MidiControlType::FourteenBitNrpn) == crate::ffi::kMIDIControlType_14BitNRPN,
    {
    }

    /// The control type with this raw value, if there is one.
    pub open spec fn spec_from_raw(raw: u8) -> Option<Self> {
        if raw == 0 {
            Some(MidiControlType::SevenBit)
        } else if raw == 1 {
            Some(MidiControlType::FourteenBit)
        } else if raw == 2 {
            Some(MidiControlType::SevenBitRpn)
        } else if raw == 3 {
            Some(MidiControlType::FourteenBitRpn)
        } else if raw == 4 {
            Some(MidiControlType::SevenBitNrpn)
        } else if raw == 5 {
            Some(MidiControlType::FourteenBitNrpn)
        } else {
            None
        }
    }

    /// Decoding a code gives the case that stands for it, and only a code
    /// some case stands for decodes.
    pub proof fn lemma_decode_inverts_codes(raw: u8, k: Self)
        ensures
            Self::spec_from_raw(raw) matches Some(d) ==> d.spec_as_raw() == raw,
            Self::spec_from_raw(k.spec_as_raw()) == Some(k),
            (Self::spec_from_raw(raw) is None) <==> (forall|c: Self| c.spec_as_raw() != raw),
    {
        if Self::spec_from_raw(raw) is None {
            assert forall|c: Self| c.spec_as_raw() != raw by {
                match c { _ => {} }
            }
        }
    }

    /// Every control type is found again from its raw value.
    pub proof fn lemma_raw_roundtrip(c: Self)
        ensures
            Self::spec_from_raw(c.spec_as_raw()) == Some(c),
    {
    }

    /// The raw control-type value.
    pub fn as_raw(self) -> (r: u8)
        ensures
            r == self.spec_as_raw(),
    {
        match self {
            MidiControlType::SevenBit => 0,
            MidiControlType::FourteenBit => 1,
            MidiControlType::SevenBitRpn => 2,
            MidiControlType::FourteenBitRpn => 3,
            MidiControlType::SevenBitNrpn => 4,
            MidiControlType::FourteenBitNrpn => 5,
        }
    }

    /// The control type with this raw value, if there is one.
    pub fn from_raw(raw: u8) -> (r: Option<Self>)
        ensures
            r == Self::spec_from_raw(raw),
    {
        match raw {
            0 => Some(MidiControlType::SevenBit),
            1 => Some(MidiControlType::FourteenBit),
            2 => Some(MidiControlType::SevenBitRpn),
            3 => Some(MidiControlType::FourteenBitRpn),
            4 => Some(MidiControlType::SevenBitNrpn),
            5 => Some(MidiControlType::FourteenBitNrpn),
            _ => None,
        }
    }
}

/// A `MIDITransform`: a kind and its parameter.
#[derive(Debug, Clone, Copy, PartialEq, Eq, Hash)]
pub struct MidiTransform {
    pub kind: MidiTransformKind,
    pub param: i16,
}

/// The transform a raw `MIDITransform` stands for, if its kind is known.
pub open spec fn spec_transform_of(raw: ffi::MIDITransform) -> Option<MidiTransform> {
    match MidiTransformKind::spec_from_raw(raw.transform) {
        Some(kind) => Some(MidiTransform { kind, param: raw.param }),
        None => None,
    }
}

impl MidiTransform {
    /// The transform that leaves values as they are.
    pub fn identity() -> (r: Self)
        ensures
            r == (MidiTransform { kind: MidiTransformKind::NoTransform, param: 0 }),
    {
        MidiTransform { kind: MidiTransformKind::NoTransform, param: 0 }
    }

    /// The raw `MIDITransform`.
    pub open spec fn spec_into_raw(self) -> ffi::MIDITransform {
        ffi::MIDITransform { transform: self.kind.spec_as_raw(), param: self.param }
    }

    /// The raw `MIDITransform`.
    pub fn into_raw(self) -> (r: ffi::MIDITransform)
        ensures
            r == self.spec_into_raw(),
    {
        ffi::MIDITransform { transform: self.kind.as_raw(), param: self.param }
    }

    /// The transform a raw `MIDITransform` stands for; an unknown kind is a
    /// `Bridge` error.
    pub fn from_raw(raw: ffi::MIDITransform) -> (r: MidiResult<Self>)
        ensures
            r is Ok <==> spec_transform_of(raw) is Some,
            r matches Ok(t) ==> spec_transform_of(raw) == Some(t),
            r matches Err(e) ==> e matches MidiError::Bridge(m) && m@ == unknown_kind_message(raw.transform),
    {
        match MidiTransformKind::from_raw(raw.transform) {
            Some(kind) => Ok(MidiTransform { kind, param: raw.param }),
            None => Err(unknown_kind_error(raw.transform)),
        }
    }
}

/// The message for a transform kind that is not known.
pub open spec fn unknown_kind_message(raw: u16) -> Seq<char> {
    "unknown MIDITransform kind "@ + decimal_text(raw as int)
}

/// The message for a control type that is not known.
pub open spec fn unknown_control_message(raw: u8) -> Seq<char> {
    "unknown MIDIControlType "@ + decimal_text(raw as int)
}

/// Why a raw control transform is refused: its control type, then its
/// remapped control type, then its transform kind, whichever is unknown
/// first.
pub open spec fn control_error_message(raw: ffi::MIDIControlTransform) -> Seq<char> {
    if MidiControlType::spec_from_raw(raw.controlType) is None {
        unknown_control_message(raw.controlType)
    } else if MidiControlType::spec_from_raw(raw.remappedControlType) is None {
        unknown_control_message(raw.remappedControlType)
    } else {
        unknown_kind_message(raw.transform)
    }
}

fn unknown_kind_error(raw: u16) -> (e: MidiError)
    ensures
        e matches MidiError::Bridge(m) && m@ == unknown_kind_message(raw),
{
    let mut text = String::from_str("unknown MIDITransform kind ");
    let digits = decimal_string(raw as i128);
    text.append(digits.as_str());
    MidiError::Bridge(text)
}

fn unknown_control_error(raw: u8) -> (e: MidiError)
    ensures
        e matches MidiError::Bridge(m) && m@ == unknown_control_message(raw),
{
    let mut text = String::from_str("unknown MIDIControlType ");
    let digits = decimal_string(raw as i128);
    text.append(digits.as_str());
    MidiError::Bridge(text)
}

/// Converting a transform to its raw form and back gives it again.
pub proof fn lemma_transform_roundtrip(t: MidiTransform)
    ensures
        spec_transform_of(t.spec_into_raw()) == Some(t),
{
    MidiTransformKind::lemma_raw_roundtrip(t.kind);
}

/// A `MIDIControlTransform`.
#[derive(Debug, Clone, Copy, PartialEq, Eq, Hash)]
pub struct MidiControlTransform {
    pub control_type: MidiControlType,
    pub remapped_control_type: MidiControlType,
    pub control_number: u16,
    pub transform: MidiTransform,
}

/// The control transform a raw `MIDIControlTransform` stands for, if its
/// control types and transform kind are known.
pub open spec fn spec_control_of(raw: ffi::MIDIControlTransform) -> Option<MidiControlTransform> {
    match (
        MidiControlType::spec_from_raw(raw.controlType),
        MidiControlType::spec_from_raw(raw.remappedControlType),
        MidiTransformKind::spec_from_raw(raw.transform),
    ) {
        (Some(c), Some(rc), Some(kind)) => Some(MidiControlTransform {
            control_type: c,
            remapped_control_type: rc,
            control_number: raw.controlNumber,
            transform: MidiTransform { kind, param: raw.param },
        }),
        _ => None,
    }
}

impl MidiControlTransform {
    /// The raw `MIDIControlTransform`.
    pub open spec fn spec_into_raw(self) -> ffi::MIDIControlTransform {
        ffi::MIDIControlTransform {
            controlType: self.control_type.spec_as_raw(),
            remappedControlType: self.remapped_control_type.spec_as_raw(),
            controlNumber: self.control_number,
            transform: self.transform.kind.spec_as_raw(),
            param: self.transform.param,
        }
    }

    /// The control transform a raw `MIDIControlTransform` stands for; an
    /// unknown control type or transform kind is a `Bridge` error.
    pub fn from_raw(raw: ffi::MIDIControlTransform) -> (r: MidiResult<Self>)
        ensures
            r is Ok <==> spec_control_of(raw) is Some,
            r matches Ok(c) ==> spec_control_of(raw) == Some(c),
            r matches Err(e) ==> e matches MidiError::Bridge(m) && m@ == control_error_message(raw),
    {
        let control_type = match MidiControlType::from_raw(raw.controlType) {
            Some(c) => c,
            None => return Err(unknown_control_error(raw.controlType)),
        };
        let remapped_control_type = match MidiControlType::from_raw(raw.remappedControlType) {
            Some(c) => c,
            None => return Err(unknown_control_error(raw.remappedControlType)),
        };
        let transform = match MidiTransform::from_raw(
            ffi::MIDITransform { transform: raw.transform, param: raw.param },
        ) {
            Ok(t) => t,
            Err(e) => return Err(e),
        };
        Ok(MidiControlTransform {
            control_type,
            remapped_control_type,
            control_number: raw.controlNumber,
            transform,
        })
    }

    /// The raw `MIDIControlTransform`.
    pub fn into_raw(self) -> (r: ffi::MIDIControlTransform)
        ensures
            r == self.spec_into_raw(),
    {
        ffi::MIDIControlTransform {
            controlType: self.control_type.as_raw(),
            remappedControlType: self.remapped_control_type.as_raw(),
            controlNumber: self.control_number,
            transform: self.transform.kind.as_raw(),
            param: self.transform.param,
        }
    }
}

/// Converting a control transform to its raw form and back gives it again.
pub proof fn lemma_control_roundtrip(c: MidiControlTransform)
    ensures
        spec_control_of(c.spec_into_raw()) == Some(c),
{
    MidiControlType::lemma_raw_roundtrip(c.control_type);
    MidiControlType::lemma_raw_roundtrip(c.remapped_control_type);
    MidiTransformKind::lemma_raw_roundtrip(c.transform.kind);
}

/// A `MIDIThruConnectionEndpoint`.
#[derive(Debug, Clone, Copy, PartialEq, Eq, Hash)]
pub struct ThruConnectionEndpoint {
    pub endpoint_ref: u32,
    pub unique_id: i32,
}

impl ThruConnectionEndpoint {
    /// The endpoint a raw `MIDIThruConnectionEndpoint` names.
    pub fn from_raw(raw: ffi::MIDIThruConnectionEndpoint) -> (r: Self)
        ensures
            r == (ThruConnectionEndpoint { endpoint_ref: raw.endpointRef, unique_id: raw.uniqueID }),
    {
        ThruConnectionEndpoint { endpoint_ref: raw.endpointRef, unique_id: raw.uniqueID }
    }

    /// The raw `MIDIThruConnectionEndpoint`.
    pub fn into_raw(self) -> (r: ffi::MIDIThruConnectionEndpoint)
        ensures
            r == (ffi::MIDIThruConnectionEndpoint { endpointRef: self.endpoint_ref, uniqueID: self.unique_id }),
    {
        ffi::MIDIThruConnectionEndpoint { endpointRef: self.endpoint_ref, uniqueID: self.unique_id }
    }
}

/// A thru connection, known by its `MIDIThruConnectionRef`.
#[derive(Debug)]
pub struct ThruConnection {
    raw: u32,
}

impl ThruConnection {
    /// The connection with this reference.
    pub fn from_raw(raw: u32) -> (r: Self)
        ensures
            r.spec_raw() == raw,
    {
        ThruConnection { raw }
    }

    /// The connection's reference.
    pub closed spec fn spec_raw(&self) -> u32 {
        self.raw
    }

    /// The connection's `MIDIThruConnectionRef`.
    pub fn raw(&self) -> (r: u32)
        ensures
            r == self.spec_raw(),
    {
        self.raw
    }
}

} // verus!
