use vstd::prelude::*;
use vstd::string::StringExecFns;

verus! {

/// The result type used throughout the crate.
pub type MidiResult<T> = Result<T, MidiError>;

/// Errors reported by the library.
#[derive(Debug, Clone, PartialEq, Eq)]
#[non_exhaustive]
pub enum MidiError {
    InvalidArgument(String),
    CoreFoundation(String),
    Bridge(String),
    Serialization(String),
    BufferTooSmall { requested: usize, available: usize },
    Unsupported(String),
    Status(MidiStatus),
}

/// The decimal digits of a natural number, most significant first.
pub open spec fn decimal_digits(n: nat) -> Seq<char>
    decreases n,
{
    if n < 10 {
        seq![(48 + n) as char]
    } else {
        decimal_digits(n / 10).push((48 + n % 10) as char)
    }
}

/// An integer as Rust prints it: a minus sign for a negative value, then
/// the decimal digits of its magnitude.
pub open spec fn decimal_text(value: int) -> Seq<char> {
    if value < 0 {
        seq!['-'] + decimal_digits((-value) as nat)
    } else {
        decimal_digits(value as nat)
    }
}

/// The character of one decimal digit.
fn digit_str(d: u8) -> (s: &'static str)
    requires
        d < 10,
    ensures
        s@ == seq![(48 + d) as char],
{
    match d {
        0 => {
            proof { reveal_strlit("0"); }
            "0"
        },
        1 => {
            proof { reveal_strlit("1"); }
            "1"
        },
        2 => {
            proof { reveal_strlit("2"); }
            "2"
        },
        3 => {
            proof { reveal_strlit("3"); }
            "3"
        },
        4 => {
            proof { reveal_strlit("4"); }
            "4"
        },
        5 => {
            proof { reveal_strlit("5"); }
            "5"
        },
        6 => {
            proof { reveal_strlit("6"); }
            "6"
        },
        7 => {
            proof { reveal_strlit("7"); }
            "7"
        },
        8 => {
            proof { reveal_strlit("8"); }
            "8"
        },
        _ => {
            proof { reveal_strlit("9"); }
            "9"
        },
    }
}

/// Appends the decimal digits of `n`.
fn push_digits(text: &mut String, n: u128)
    ensures
        final(text)@ == old(text)@ + decimal_digits(n as nat),
    decreases n,
{
    let ghost start = text@;
    if n >= 10 {
        push_digits(text, n / 10);
    }
    let d = (n % 10) as u8;
    text.append(digit_str(d));
    proof {
        if n >= 10 {
            assert(decimal_digits(n as nat) == decimal_digits((n / 10) as nat).push((48 + n % 10) as char));
            assert(text@ =~= start + decimal_digits(n as nat));
        } else {
            assert(text@ =~= start + decimal_digits(n as nat));
        }
    }
}

/// Prints an integer in decimal, as its `Display` does.
pub(crate) fn decimal_string(value: i128) -> (r: String)
    ensures
        r@ == decimal_text(value as int),
{
    let mut text = String::new();
    if value < 0 {
        text.append("-");
        proof { reveal_strlit("-"); }
        let magnitude: u128 = ((-(value + 1)) as u128) + 1;
        push_digits(&mut text, magnitude);
    } else {
        push_digits(&mut text, value as u128);
    }
    text
}

impl MidiError {
    /// The text the error reads as: a phrase naming its kind followed by
    /// its message, sizes in decimal, or the status's own text.
    pub open spec fn spec_message(&self) -> Seq<char> {
        match self {
            MidiError::InvalidArgument(m) => "invalid argument: "@ + m@,
            MidiError::CoreFoundation(m) => "CoreFoundation error: "@ + m@,
            MidiError::Bridge(m) => "CoreMIDI bridge error: "@ + m@,
            MidiError::Serialization(m) => "serialization error: "@ + m@,
            MidiError::BufferTooSmall { requested, available } => "buffer too small: requested "@
                + decimal_text(*requested as int) + " bytes, available "@ + decimal_text(*available as int)
                + " bytes"@,
            MidiError::Unsupported(m) => "unsupported operation: "@ + m@,
            MidiError::Status(status) => status.spec_message(),
        }
    }

    /// The error as text.
    pub fn message(&self) -> (r: String)
        ensures
            r@ == self.spec_message(),
    {
        match self {
            MidiError::InvalidArgument(m) => {
                let mut text = String::from_str("invalid argument: ");
                text.append(m.as_str());
                text
            },
            MidiError::CoreFoundation(m) => {
                let mut text = String::from_str("CoreFoundation error: ");
                text.append(m.as_str());
                text
            },
            MidiError::Bridge(m) => {
                let mut text = String::from_str("CoreMIDI bridge error: ");
                text.append(m.as_str());
                text
            },
            MidiError::Serialization(m) => {
                let mut text = String::from_str("serialization error: ");
                text.append(m.as_str());
                text
            },
            MidiError::BufferTooSmall { requested, available } => {
                let mut text = String::from_str("buffer too small: requested ");
                let wanted = decimal_string(*requested as i128);
                text.append(wanted.as_str());
                text.append(" bytes, available ");
                let had = decimal_string(*available as i128);
                text.append(had.as_str());
                text.append(" bytes");
                text
            },
            MidiError::Unsupported(m) => {
                let mut text = String::from_str("unsupported operation: ");
                text.append(m.as_str());
                text
            },
            MidiError::Status(status) => status.message(),
        }
    }
}

/// A CoreMIDI `OSStatus`, with the documented MIDI error codes named.
#[derive(Debug, Clone, Copy, PartialEq, Eq, Hash)]
#[non_exhaustive]
pub enum MidiStatus {
    InvalidClient,
    InvalidPort,
    WrongEndpointType,
    NoConnection,
    UnknownEndpoint,
    UnknownProperty,
    WrongPropertyType,
    NoCurrentSetup,
    MessageSend,
    ServerStart,
    SetupFormat,
    WrongThread,
    ObjectNotFound,
    IdNotUnique,
    NotPermitted,
    UnknownError,
    OsStatus(i32),
}

/// `noErr`.
pub const NO_ERR: i32 = 0;

/// The named CoreMIDI error codes occupy `kMIDIUnknownError ..= kMIDIInvalidClient`.
pub open spec fn is_named_status(code: i32) -> bool {
    -10845 <= code <= -10830
}

impl MidiStatus {
    /// The `OSStatus` that this value stands for.
    pub open spec fn spec_raw(self) -> i32 {
        match self {
            MidiStatus::InvalidClient => -10830i32,
            MidiStatus::InvalidPort => -10831i32,
            MidiStatus::WrongEndpointType => -10832i32,
            MidiStatus::NoConnection => -10833i32,
            MidiStatus::UnknownEndpoint => -10834i32,
            MidiStatus::UnknownProperty => -10835i32,
            MidiStatus::WrongPropertyType => -10836i32,
            MidiStatus::NoCurrentSetup => -10837i32,
            MidiStatus::MessageSend => -10838i32,
            MidiStatus::ServerStart => -10839i32,
            MidiStatus::SetupFormat => -10840i32,
            MidiStatus::WrongThread => -10841i32,
            MidiStatus::ObjectNotFound => -10842i32,
            MidiStatus::IdNotUnique => -10843i32,
            MidiStatus::NotPermitted => -10844i32,
            MidiStatus::UnknownError => -10845i32,
            MidiStatus::OsStatus(code) => code,
        }
    }

    /// Each case stands for the code the CoreMIDI headers give it.
    pub proof fn lemma_coremidi_codes()
        ensures
            Self::spec_raw(MidiStatus::InvalidClient) == crate::ffi::kMIDIInvalidClient,
            Self::spec_raw(MidiStatus::InvalidPort) == crate::ffi::kMIDIInvalidPort,
            Self::spec_raw(MidiStatus::WrongEndpointType) == crate::ffi::kMIDIWrongEndpointType,
            Self::spec_raw(MidiStatus::NoConnection) == crate::ffi::kMIDINoConnection,
            Self::spec_raw(MidiStatus::UnknownEndpoint) == crate::ffi::kMIDIUnknownEndpoint,
            Self::spec_raw(MidiStatus::UnknownProperty) == crate::ffi::kMIDIUnknownProperty,
            Self::spec_raw(MidiStatus::WrongPropertyType) == crate::ffi::kMIDIWrongPropertyType,
            Self::spec_raw(MidiStatus::NoCurrentSetup) == crate::ffi::kMIDINoCurrentSetup,
            Self::spec_raw(MidiStatus::MessageSend) == crate::ffi::kMIDIMessageSendErr,
            Self::spec_raw(MidiStatus::ServerStart) == crate::ffi::kMIDIServerStartErr,
            Self::spec_raw(MidiStatus::SetupFormat) == crate::ffi::kMIDISetupFormatErr,
            Self::spec_raw(MidiStatus::WrongThread) == crate::ffi::kMIDIWrongThread,
            Self::spec_raw(MidiStatus::ObjectNotFound) == crate::ffi::kMIDIObjectNotFound,
            Self::spec_raw(MidiStatus::IdNotUnique) == crate::ffi::kMIDIIDNotUnique,
            Self::spec_raw(MidiStatus::NotPermitted) == crate::ffi::kMIDINotPermitted,
            Self::spec_raw(MidiStatus::UnknownError) == crate::ffi::kMIDIUnknownError,
    {
    }

    /// Classifies an `OSStatus`: a named MIDI error code gets its variant,
    /// any other code is kept as `OsStatus`.
    pub fn from_raw(status: i32) -> (s: Self)
        ensures
            s.spec_raw() == status,
            (s is OsStatus) <==> !is_named_status(status),
    {
        match status {
            -10830 => MidiStatus::InvalidClient,
            -10831 => MidiStatus::InvalidPort,
            -10832 => MidiStatus::WrongEndpointType,
            -10833 => MidiStatus::NoConnection,
            -10834 => MidiStatus::UnknownEndpoint,
            -10835 => MidiStatus::UnknownProperty,
            -10836 => MidiStatus::WrongPropertyType,
            -10837 => MidiStatus::NoCurrentSetup,
            -10838 => MidiStatus::MessageSend,
            -10839 => MidiStatus::ServerStart,
            -10840 => MidiStatus::SetupFormat,
            -10841 => MidiStatus::WrongThread,
            -10842 => MidiStatus::ObjectNotFound,
            -10843 => MidiStatus::IdNotUnique,
            -10844 => MidiStatus::NotPermitted,
            -10845 => MidiStatus::UnknownError,
            other => MidiStatus::OsStatus(other),
        }
    }

    /// The `OSStatus` for this status.
    pub fn raw(self) -> (r: i32)
        ensures
            r == self.spec_raw(),
    {
        match self {
            MidiStatus::InvalidClient => -10830,
            MidiStatus::InvalidPort => -10831,
            MidiStatus::WrongEndpointType => -10832,
            MidiStatus::NoConnection => -10833,
            MidiStatus::UnknownEndpoint => -10834,
            MidiStatus::UnknownProperty => -10835,
            MidiStatus::WrongPropertyType => -10836,
            MidiStatus::NoCurrentSetup => -10837,
            MidiStatus::MessageSend => -10838,
            MidiStatus::ServerStart => -10839,
            MidiStatus::SetupFormat => -10840,
            MidiStatus::WrongThread => -10841,
            MidiStatus::ObjectNotFound => -10842,
            MidiStatus::IdNotUnique => -10843,
            MidiStatus::NotPermitted => -10844,
            MidiStatus::UnknownError => -10845,
            MidiStatus::OsStatus(code) => code,
        }
    }

    /// The text the status reads as: a fixed phrase for a named code, the
    /// code in decimal for any other.
    pub open spec fn spec_message(self) -> Seq<char> {
        match self {
            MidiStatus::InvalidClient => "invalid MIDI client"@,
            MidiStatus::InvalidPort => "invalid MIDI port"@,
            MidiStatus::WrongEndpointType => "wrong endpoint type"@,
            MidiStatus::NoConnection => "no such MIDI connection"@,
            MidiStatus::UnknownEndpoint => "unknown MIDI endpoint"@,
            MidiStatus::UnknownProperty => "unknown MIDI property"@,
            MidiStatus::WrongPropertyType => "wrong MIDI property type"@,
            MidiStatus::NoCurrentSetup => "no current MIDI setup"@,
            MidiStatus::MessageSend => "CoreMIDI message send error"@,
            MidiStatus::ServerStart => "CoreMIDI server start error"@,
            MidiStatus::SetupFormat => "CoreMIDI setup format error"@,
            MidiStatus::WrongThread => "CoreMIDI API called from the wrong thread"@,
            MidiStatus::ObjectNotFound => "CoreMIDI object not found"@,
            MidiStatus::IdNotUnique => "CoreMIDI unique ID collision"@,
            MidiStatus::NotPermitted => "CoreMIDI operation not permitted"@,
            MidiStatus::UnknownError => "unknown CoreMIDI error"@,
            MidiStatus::OsStatus(code) => "CoreMIDI returned OSStatus "@ + decimal_text(code as int),
        }
    }

    /// The status as text.
    pub fn message(self) -> (r: String)
        ensures
            r@ == self.spec_message(),
    {
        match self {
            MidiStatus::InvalidClient => String::from_str("invalid MIDI client"),
            MidiStatus::InvalidPort => String::from_str("invalid MIDI port"),
            MidiStatus::WrongEndpointType => String::from_str("wrong endpoint type"),
            MidiStatus::NoConnection => String::from_str("no such MIDI connection"),
            MidiStatus::UnknownEndpoint => String::from_str("unknown MIDI endpoint"),
            MidiStatus::UnknownProperty => String::from_str("unknown MIDI property"),
            MidiStatus::WrongPropertyType => String::from_str("wrong MIDI property type"),
            MidiStatus::NoCurrentSetup => String::from_str("no current MIDI setup"),
            MidiStatus::MessageSend => String::from_str("CoreMIDI message send error"),
            MidiStatus::ServerStart => String::from_str("CoreMIDI server start error"),
            MidiStatus::SetupFormat => String::from_str("CoreMIDI setup format error"),
            MidiStatus::WrongThread => String::from_str("CoreMIDI API called from the wrong thread"),
            MidiStatus::ObjectNotFound => String::from_str("CoreMIDI object not found"),
            MidiStatus::IdNotUnique => String::from_str("CoreMIDI unique ID collision"),
            MidiStatus::NotPermitted => String::from_str("CoreMIDI operation not permitted"),
            MidiStatus::UnknownError => String::from_str("unknown CoreMIDI error"),
            MidiStatus::OsStatus(code) => {
                let mut text = String::from_str("CoreMIDI returned OSStatus ");
                let digits = decimal_string(code as i128);
                text.append(digits.as_str());
                text
            },
        }
    }

    /// Whether this value is in the form that `from_raw` produces: a named
    /// code is never carried by `OsStatus`.
    pub open spec fn is_canonical(self) -> bool {
        self is OsStatus ==> !is_named_status(self.spec_raw())
    }
}

/// Two statuses in canonical form with the same `OSStatus` are the same status.
pub proof fn lemma_status_raw_injective(a: MidiStatus, b: MidiStatus)
    requires
        a.is_canonical(),
        b.is_canonical(),
        a.spec_raw() == b.spec_raw(),
    ensures
        a == b,
{
}

/// Turning a status into its `OSStatus` and classifying that code again gives
/// the status back, for every status in canonical form.
pub proof fn lemma_status_roundtrip(s: MidiStatus, t: MidiStatus)
    requires
        s.is_canonical(),
        t.spec_raw() == s.spec_raw(),
        (t is OsStatus) <==> !is_named_status(s.spec_raw()),
    ensures
        t == s,
{
}

/// Maps an `OSStatus` to a result: `noErr` is success, every other code is a
/// `Status` error carrying the classified code.
pub fn result_from_status(status: i32) -> (r: MidiResult<()>)
    ensures
        status == NO_ERR ==> r is Ok,
        status != NO_ERR ==> (r matches Err(MidiError::Status(s)) && s.spec_raw() == status
            && ((s is OsStatus) <==> !is_named_status(status))),
{
    if status == NO_ERR {
        Ok(())
    } else {
        Err(MidiError::Status(MidiStatus::from_raw(status)))
    }
}

} // verus!
