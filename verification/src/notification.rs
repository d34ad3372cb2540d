//! Typed CoreMIDI notifications, decoded from the raw notification structs
//! or from the bridge's notification payloads.
use vstd::prelude::*;
use vstd::string::StringExecFns;
use crate::error::{MidiError, MidiResult};
use crate::ffi;
use crate::property::MidiObjectType;

verus! {

/// `MIDINotificationMessageID`.
#[derive(Debug, Clone, Copy, PartialEq, Eq, Hash)]
pub enum NotificationMessageId {
    SetupChanged,
    ObjectAdded,
    ObjectRemoved,
    PropertyChanged,
    ThruConnectionsChanged,
    SerialPortOwnerChanged,
    IoError,
    InternalStart,
}

impl NotificationMessageId {
    /// The raw value this case stands for.
    pub open spec fn spec_as_raw(self) -> i32 {
        match self {
            NotificationMessageId::SetupChanged => 1i32,
            NotificationMessageId::ObjectAdded => 2i32,
            NotificationMessageId::ObjectRemoved => 3i32,
            NotificationMessageId::PropertyChanged => 4i32,
            NotificationMessageId::ThruConnectionsChanged => 5i32,
            NotificationMessageId::SerialPortOwnerChanged => 6i32,
            NotificationMessageId::IoError => 7i32,
            NotificationMessageId::InternalStart => 0x1000i32,
        }
    }

    /// Each case stands for the code the CoreMIDI headers give it.
    pub proof fn lemma_coremidi_codes()
        ensures
            Self::spec_as_raw(NotificationMessageId::SetupChanged) == crate::ffi::kMIDIMsgSetupChanged,
            Self::spec_as_raw(NotificationMessageId::ObjectAdded) == crate::ffi::kMIDIMsgObjectAdded,
            Self::spec_as_raw(NotificationMessageId::ObjectRemoved) == crate::ffi::kMIDIMsgObjectRemoved,
            Self::spec_as_raw(NotificationMessageId::PropertyChanged) == crate::ffi::kMIDIMsgPropertyChanged,
            Self::spec_as_raw(NotificationMessageId::ThruConnectionsChanged) == crate::ffi::kMIDIMsgThruConnectionsChanged,
            Self::spec_as_raw(NotificationMessageId::SerialPortOwnerChanged) == crate::ffi::kMIDIMsgSerialPortOwnerChanged,
            Self::spec_as_raw(NotificationMessageId::IoError) == crate::ffi::kMIDIMsgIOError,
            Self::spec_as_raw(NotificationMessageId::InternalStart) == crate::ffi::kMIDIMsgInternalStart,
    {
    }

    /// Different cases have different raw values.
    pub proof fn lemma_raw_injective(a: Self, b: Self)
        requires
            a.spec_as_raw() == b.spec_as_raw(),
        ensures
            a == b,
    {
    }

    /// The raw value for this case.
    pub fn as_raw(self) -> (r: i32)
        ensures
            r == self.spec_as_raw(),
    {
        match self {
            NotificationMessageId::SetupChanged => 1,
            NotificationMessageId::ObjectAdded => 2,
            NotificationMessageId::ObjectRemoved => 3,
            NotificationMessageId::PropertyChanged => 4,
            NotificationMessageId::ThruConnectionsChanged => 5,
            NotificationMessageId::SerialPortOwnerChanged => 6,
            NotificationMessageId::IoError => 7,
            NotificationMessageId::InternalStart => 0x1000,
        }
    }

    /// The case with this raw value, if there is one.
    pub fn from_raw(raw: i32) -> (r: Option<Self>)
        ensures
            r matches Some(v) ==> v.spec_as_raw() == raw,
            r is None ==> forall|v: Self| v.spec_as_raw() != raw,
    {
        match raw {
            1 => Some(NotificationMessageId::SetupChanged),
            2 => Some(NotificationMessageId::ObjectAdded),
            3 => Some(NotificationMessageId::ObjectRemoved),
            4 => Some(NotificationMessageId::PropertyChanged),
            5 => Some(NotificationMessageId::ThruConnectionsChanged),
            6 => Some(NotificationMessageId::SerialPortOwnerChanged),
            7 => Some(NotificationMessageId::IoError),
            0x1000 => Some(NotificationMessageId::InternalStart),
            _ => None,
        }
    }
}

/// A decoded CoreMIDI notification.
#[derive(Debug, Clone, PartialEq, Eq)]
#[non_exhaustive]
pub enum Notification {
    SetupChanged,
    ObjectAdded {
        parent: Option<u32>,
        parent_type: Option<MidiObjectType>,
        child: u32,
        child_type: MidiObjectType,
    },
    ObjectRemoved {
        parent: Option<u32>,
        parent_type: Option<MidiObjectType>,
        child: u32,
        child_type: MidiObjectType,
    },
    PropertyChanged { object: u32, object_type: MidiObjectType, property_name: String },
    ThruConnectionsChanged,
    SerialPortOwnerChanged,
    IoError { driver_device: u32, error_code: i32 },
    Unknown { message_id: i32, message_size: u32 },
}

/// The fields of a notification as the bridge reports them.
#[derive(Debug, Clone, PartialEq, Eq)]
pub struct NotificationPayload {
    pub message_id: i32,
    pub message_size: u32,
    pub parent: Option<u32>,
    pub parent_type: Option<i32>,
    pub child: Option<u32>,
    pub child_type: Option<i32>,
    pub object: Option<u32>,
    pub object_type: Option<i32>,
    pub property_name: Option<String>,
    pub driver_device: Option<u32>,
    pub error_code: Option<i32>,
}

/// A raw notification, read as the struct its message ID calls for.
#[derive(Debug, Clone)]
pub enum RawNotificationMessage {
    /// A notification that carries nothing past `MIDINotification`.
    Header(ffi::MIDINotification),
    /// `MIDIObjectAddRemoveNotification`.
    AddRemove(ffi::MIDIObjectAddRemoveNotification),
    /// `MIDIObjectPropertyChangeNotification`, its property name read out.
    PropertyChange {
        message_id: i32,
        message_size: u32,
        object: u32,
        object_type: i32,
        property_name: String,
    },
    /// `MIDIIOErrorNotification`.
    IoError(ffi::MIDIIOErrorNotification),
}

/// Which struct a raw notification with a given message ID is.
#[derive(Debug, Clone, Copy, PartialEq, Eq)]
pub enum RawNotificationLayout {
    Header,
    AddRemove,
    PropertyChange,
    IoError,
}

/// The struct a notification with this message ID is laid out as.
pub open spec fn spec_layout_for(message_id: i32) -> RawNotificationLayout {
    if message_id == 2 || message_id == 3 {
        RawNotificationLayout::AddRemove
    } else if message_id == 4 {
        RawNotificationLayout::PropertyChange
    } else if message_id == 7 {
        RawNotificationLayout::IoError
    } else {
        RawNotificationLayout::Header
    }
}

/// Each CoreMIDI notification is read as the struct its header file pairs
/// with its message ID: `MIDIObjectAddRemoveNotification` for
/// `kMIDIMsgObjectAdded` and `kMIDIMsgObjectRemoved`,
/// `MIDIObjectPropertyChangeNotification` for `kMIDIMsgPropertyChanged`,
/// `MIDIIOErrorNotification` for `kMIDIMsgIOError`, the bare
/// `MIDINotification` for the rest.
pub proof fn lemma_layout_codes()
    ensures
        spec_layout_for(ffi::kMIDIMsgSetupChanged) == RawNotificationLayout::Header,
        spec_layout_for(ffi::kMIDIMsgObjectAdded) == RawNotificationLayout::AddRemove,
        spec_layout_for(ffi::kMIDIMsgObjectRemoved) == RawNotificationLayout::AddRemove,
        spec_layout_for(ffi::kMIDIMsgPropertyChanged) == RawNotificationLayout::PropertyChange,
        spec_layout_for(ffi::kMIDIMsgThruConnectionsChanged) == RawNotificationLayout::Header,
        spec_layout_for(ffi::kMIDIMsgSerialPortOwnerChanged) == RawNotificationLayout::Header,
        spec_layout_for(ffi::kMIDIMsgIOError) == RawNotificationLayout::IoError,
        spec_layout_for(ffi::kMIDIMsgInternalStart) == RawNotificationLayout::Header,
{
}

/// The struct a notification with this message ID is laid out as.
pub fn layout_for(message_id: i32) -> (r: RawNotificationLayout)
    ensures
        r == spec_layout_for(message_id),
{
    match message_id {
        2 | 3 => RawNotificationLayout::AddRemove,
        4 => RawNotificationLayout::PropertyChange,
        7 => RawNotificationLayout::IoError,
        _ => RawNotificationLayout::Header,
    }
}

/// The object type a payload field names, if it is present.
pub open spec fn spec_opt_type(t: Option<i32>) -> Option<MidiObjectType> {
    match t {
        Some(raw) => Some(MidiObjectType::spec_from_raw(raw)),
        None => None,
    }
}

/// Whether a payload carries the fields its message ID calls for: child and
/// child type for an add or remove, object and object type for a property
/// change.
pub open spec fn payload_complete(p: NotificationPayload) -> bool {
    &&& (p.message_id == 2 || p.message_id == 3) ==> (p.child is Some && p.child_type is Some)
    &&& p.message_id == 4 ==> (p.object is Some && p.object_type is Some)
}

/// Which field an incomplete payload lacks first: the child, then its type
/// for an add or remove; the object, then its type for a property change.
pub open spec fn missing_field_message(p: NotificationPayload) -> Seq<char> {
    if p.message_id == 4 {
        if p.object is None {
            "missing object in property change payload"@
        } else {
            "missing object type in property change payload"@
        }
    } else if p.child is None {
        "missing child object in notification payload"@
    } else {
        "missing child type in notification payload"@
    }
}

/// The text of an optional name, empty when it is absent.
pub open spec fn name_or_empty(name: Option<String>) -> Seq<char> {
    match name {
        Some(n) => n@,
        None => Seq::empty(),
    }
}

/// Whether `n` is what a complete payload decodes to: the variant its
/// message ID names, with the payload's fields, absent driver fields read
/// as 0 and an absent property name as the empty name; an ID outside
/// `1..=7` gives `Unknown`.
pub open spec fn decodes_to(p: NotificationPayload, n: Notification) -> bool {
    if p.message_id == 1 {
        n == Notification::SetupChanged
    } else if p.message_id == 2 {
        n == (Notification::ObjectAdded {
            parent: p.parent,
            parent_type: spec_opt_type(p.parent_type),
            child: p.child.unwrap(),
            child_type: MidiObjectType::spec_from_raw(p.child_type.unwrap()),
        })
    } else if p.message_id == 3 {
        n == (Notification::ObjectRemoved {
            parent: p.parent,
            parent_type: spec_opt_type(p.parent_type),
            child: p.child.unwrap(),
            child_type: MidiObjectType::spec_from_raw(p.child_type.unwrap()),
        })
    } else if p.message_id == 4 {
        n matches Notification::PropertyChanged { object, object_type, property_name }
            && object == p.object.unwrap()
            && object_type == MidiObjectType::spec_from_raw(p.object_type.unwrap())
            && property_name@ == name_or_empty(p.property_name)
    } else if p.message_id == 5 {
        n == Notification::ThruConnectionsChanged
    } else if p.message_id == 6 {
        n == Notification::SerialPortOwnerChanged
    } else if p.message_id == 7 {
        n == (Notification::IoError {
            driver_device: match p.driver_device { Some(d) => d, None => 0 },
            error_code: match p.error_code { Some(e) => e, None => 0 },
        })
    } else {
        n == (Notification::Unknown { message_id: p.message_id, message_size: p.message_size })
    }
}

fn opt_type(t: Option<i32>) -> (r: Option<MidiObjectType>)
    ensures
        r == spec_opt_type(t),
{
    match t {
        Some(raw) => Some(MidiObjectType::from_raw(raw)),
        None => None,
    }
}

/// Whether `n` is what a raw notification decodes to: the variant its
/// message ID names when its body is the struct that ID calls for, with the
/// body's fields (a parent reference of 0 meaning no parent); `Unknown`
/// otherwise.
pub open spec fn raw_decodes_to(message: RawNotificationMessage, r: Notification) -> bool {
    match message {
        RawNotificationMessage::Header(h) => if h.messageID == 1 {
            r == Notification::SetupChanged
        } else if h.messageID == 5 {
            r == Notification::ThruConnectionsChanged
        } else if h.messageID == 6 {
            r == Notification::SerialPortOwnerChanged
        } else {
            r == (Notification::Unknown { message_id: h.messageID, message_size: h.messageSize })
        },
        RawNotificationMessage::AddRemove(a) => if a.messageID == 2 || a.messageID == 3 {
            let parent = if a.parent == 0 { None } else { Some(a.parent) };
            let parent_type = if a.parent == 0 {
                None
            } else {
                Some(MidiObjectType::spec_from_raw(a.parentType))
            };
            if a.messageID == 2 {
                r == (Notification::ObjectAdded {
                    parent,
                    parent_type,
                    child: a.child,
                    child_type: MidiObjectType::spec_from_raw(a.childType),
                })
            } else {
                r == (Notification::ObjectRemoved {
                    parent,
                    parent_type,
                    child: a.child,
                    child_type: MidiObjectType::spec_from_raw(a.childType),
                })
            }
        } else {
            r == (Notification::Unknown { message_id: a.messageID, message_size: a.messageSize })
        },
        RawNotificationMessage::PropertyChange {
            message_id,
            message_size,
            object,
            object_type,
            property_name,
        } => if message_id == 4 {
            r == (Notification::PropertyChanged {
                object,
                object_type: MidiObjectType::spec_from_raw(object_type),
                property_name,
            })
        } else {
            r == (Notification::Unknown { message_id, message_size })
        },
        RawNotificationMessage::IoError(e) => if e.messageID == 7 {
            r == (Notification::IoError { driver_device: e.driverDevice, error_code: e.errorCode })
        } else {
            r == (Notification::Unknown { message_id: e.messageID, message_size: e.messageSize })
        },
    }
}

/// The message ID a raw notification's header carries.
pub open spec fn raw_message_id(message: RawNotificationMessage) -> i32 {
    match message {
        RawNotificationMessage::Header(h) => h.messageID,
        RawNotificationMessage::AddRemove(a) => a.messageID,
        RawNotificationMessage::PropertyChange { message_id, .. } => message_id,
        RawNotificationMessage::IoError(e) => e.messageID,
    }
}

impl Notification {
    /// Decodes a bridge payload. A missing child or child type in an
    /// add/remove notification, or a missing object or object type in a
    /// property change, is a `Serialization` error; a property change
    /// without a property name gets an empty name.
    pub fn from_payload(payload: NotificationPayload) -> (r: MidiResult<Self>)
        ensures
            r is Ok <==> payload_complete(payload),
            r matches Ok(n) ==> decodes_to(payload, n),
            r matches Err(e) ==> e matches MidiError::Serialization(m) && m@ == missing_field_message(payload),
    {
        let id = payload.message_id;
        if id == 1 {
            Ok(Notification::SetupChanged)
        } else if id == 2 || id == 3 {
            let child = match payload.child {
                Some(c) => c,
                None => {
                    return Err(MidiError::Serialization(
                        String::from_str("missing child object in notification payload"),
                    ))
                },
            };
            let child_type = match payload.child_type {
                Some(t) => MidiObjectType::from_raw(t),
                None => {
                    return Err(MidiError::Serialization(
                        String::from_str("missing child type in notification payload"),
                    ))
                },
            };
            let parent_type = opt_type(payload.parent_type);
            if id == 2 {
                Ok(Notification::ObjectAdded { parent: payload.parent, parent_type, child, child_type })
            } else {
                Ok(Notification::ObjectRemoved { parent: payload.parent, parent_type, child, child_type })
            }
        } else if id == 4 {
            let object = match payload.object {
                Some(o) => o,
                None => {
                    return Err(MidiError::Serialization(
                        String::from_str("missing object in property change payload"),
                    ))
                },
            };
            let object_type = match payload.object_type {
                Some(t) => MidiObjectType::from_raw(t),
                None => {
                    return Err(MidiError::Serialization(
                        String::from_str("missing object type in property change payload"),
                    ))
                },
            };
            let property_name = match payload.property_name {
                Some(name) => name,
                None => String::new(),
            };
            Ok(Notification::PropertyChanged { object, object_type, property_name })
        } else if id == 5 {
            Ok(Notification::ThruConnectionsChanged)
        } else if id == 6 {
            Ok(Notification::SerialPortOwnerChanged)
        } else if id == 7 {
            let driver_device = match payload.driver_device {
                Some(d) => d,
                None => 0,
            };
            let error_code = match payload.error_code {
                Some(e) => e,
                None => 0,
            };
            Ok(Notification::IoError { driver_device, error_code })
        } else {
            Ok(Notification::Unknown { message_id: id, message_size: payload.message_size })
        }
    }

    /// Decodes a raw notification. Add/remove notifications with a parent
    /// reference of 0 have no parent; a notification whose body does not
    /// match its message ID, or whose ID is unknown or internal, is
    /// `Unknown`.
    pub fn from_raw_message(message: RawNotificationMessage) -> (r: Self)
        ensures
            raw_decodes_to(message, r),
    {
        match message {
            RawNotificationMessage::Header(h) => {
                if h.messageID == 1 {
                    Notification::SetupChanged
                } else if h.messageID == 5 {
                    Notification::ThruConnectionsChanged
                } else if h.messageID == 6 {
                    Notification::SerialPortOwnerChanged
                } else {
                    Notification::Unknown { message_id: h.messageID, message_size: h.messageSize }
                }
            },
            RawNotificationMessage::AddRemove(a) => {
                if a.messageID == 2 || a.messageID == 3 {
                    let parent = if a.parent == 0 { None } else { Some(a.parent) };
                    let parent_type = if a.parent == 0 {
                        None
                    } else {
                        Some(MidiObjectType::from_raw(a.parentType))
                    };
                    let child_type = MidiObjectType::from_raw(a.childType);
                    if a.messageID == 2 {
                        Notification::ObjectAdded { parent, parent_type, child: a.child, child_type }
                    } else {
                        Notification::ObjectRemoved { parent, parent_type, child: a.child, child_type }
                    }
                } else {
                    Notification::Unknown { message_id: a.messageID, message_size: a.messageSize }
                }
            },
            RawNotificationMessage::PropertyChange {
                message_id,
                message_size,
                object,
                object_type,
                property_name,
            } => {
                if message_id == 4 {
                    Notification::PropertyChanged {
                        object,
                        object_type: MidiObjectType::from_raw(object_type),
                        property_name,
                    }
                } else {
                    Notification::Unknown { message_id, message_size }
                }
            },
            RawNotificationMessage::IoError(e) => {
                if e.messageID == 7 {
                    Notification::IoError { driver_device: e.driverDevice, error_code: e.errorCode }
                } else {
                    Notification::Unknown { message_id: e.messageID, message_size: e.messageSize }
                }
            },
        }
    }
}

impl Notification {
    /// The kind of notification this is, by the message ID that names it;
    /// `None` for `Unknown`.
    pub open spec fn spec_message_id(self) -> Option<NotificationMessageId> {
        match self {
            Notification::SetupChanged => Some(NotificationMessageId::SetupChanged),
            Notification::ObjectAdded { .. } => Some(NotificationMessageId::ObjectAdded),
            Notification::ObjectRemoved { .. } => Some(NotificationMessageId::ObjectRemoved),
            Notification::PropertyChanged { .. } => Some(NotificationMessageId::PropertyChanged),
            Notification::ThruConnectionsChanged => Some(NotificationMessageId::ThruConnectionsChanged),
            Notification::SerialPortOwnerChanged => Some(NotificationMessageId::SerialPortOwnerChanged),
            Notification::IoError { .. } => Some(NotificationMessageId::IoError),
            Notification::Unknown { .. } => None,
        }
    }
}

/// A payload decodes to the kind of notification its message ID names
/// (`kMIDIMsgObjectRemoved` to `ObjectRemoved`, and so on); an ID that names
/// no notification (unknown, or the internal range's start) gives `Unknown`
/// carrying that ID.
pub proof fn lemma_payload_kind(p: NotificationPayload, n: Notification)
    requires
        decodes_to(p, n),
    ensures
        n.spec_message_id() matches Some(id) ==> id.spec_as_raw() == p.message_id,
        (n is Unknown) <==> (forall|id: NotificationMessageId|
            #[trigger] id.spec_as_raw() == p.message_id ==> id is InternalStart),
        n matches Notification::Unknown { message_id, .. } ==> message_id == p.message_id,
{
    NotificationMessageId::lemma_coremidi_codes();
    if n is Unknown {
        assert forall|id: NotificationMessageId| #[trigger] id.spec_as_raw() == p.message_id
            implies id is InternalStart by {
            match id { _ => {} }
        }
    } else {
        let id = n.spec_message_id().unwrap();
        assert(id.spec_as_raw() == p.message_id && !(id is InternalStart));
    }
}

/// A raw notification decodes to the kind its header's message ID names,
/// and only to that kind.
pub proof fn lemma_raw_kind(m: RawNotificationMessage, n: Notification)
    requires
        raw_decodes_to(m, n),
    ensures
        n.spec_message_id() matches Some(id) ==> id.spec_as_raw() == raw_message_id(m),
        n matches Notification::Unknown { message_id, .. } ==> message_id == raw_message_id(m),
{
    NotificationMessageId::lemma_coremidi_codes();
}

/// The bridge's payload and the raw struct of the same add or remove
/// notification decode to the same notification.
pub proof fn lemma_payload_agrees_with_raw(
    a: ffi::MIDIObjectAddRemoveNotification,
    p: NotificationPayload,
    n1: Notification,
    n2: Notification,
)
    requires
        a.parent != 0,
        p.message_id == a.messageID,
        p.message_size == a.messageSize,
        p.parent == Some(a.parent),
        p.parent_type == Some(a.parentType),
        p.child == Some(a.child),
        p.child_type == Some(a.childType),
        a.messageID == 2 || a.messageID == 3,
        decodes_to(p, n1),
        raw_decodes_to(RawNotificationMessage::AddRemove(a), n2),
    ensures
        n1 == n2,
{
}

/// The bridge's payload and the raw struct of the same add or remove
/// notification without a parent (a parent reference of 0) decode to the
/// same notification.
pub proof fn lemma_parentless_payload_agrees_with_raw(
    a: ffi::MIDIObjectAddRemoveNotification,
    p: NotificationPayload,
    n1: Notification,
    n2: Notification,
)
    requires
        a.parent == 0,
        p.message_id == a.messageID,
        p.message_size == a.messageSize,
        p.parent is None,
        p.parent_type is None,
        p.child == Some(a.child),
        p.child_type == Some(a.childType),
        a.messageID == 2 || a.messageID == 3,
        decodes_to(p, n1),
        raw_decodes_to(RawNotificationMessage::AddRemove(a), n2),
    ensures
        n1 == n2,
{
}

/// The bridge's payload and the raw struct of the same property change
/// decode to the same notification: same object, object type and property
/// name.
pub proof fn lemma_property_payload_agrees_with_raw(
    p: NotificationPayload,
    message_size: u32,
    object: u32,
    object_type: i32,
    property_name: String,
    n1: Notification,
    n2: Notification,
)
    requires
        p.message_id == 4,
        p.message_size == message_size,
        p.object == Some(object),
        p.object_type == Some(object_type),
        p.property_name == Some(property_name),
        decodes_to(p, n1),
        raw_decodes_to(
            RawNotificationMessage::PropertyChange { message_id: 4, message_size, object, object_type, property_name },
            n2,
        ),
    ensures
        n1 matches Notification::PropertyChanged { object: o1, object_type: t1, property_name: name1 }
            && n2 matches Notification::PropertyChanged { object: o2, object_type: t2, property_name: name2 }
            && o1 == o2 && t1 == t2 && name1@ == name2@,
        n1 matches Notification::PropertyChanged { object: o, .. } && o == object,
{
}

/// The bridge's payload and the raw struct of the same I/O error decode to
/// the same notification.
pub proof fn lemma_io_error_payload_agrees_with_raw(
    e: ffi::MIDIIOErrorNotification,
    p: NotificationPayload,
    n1: Notification,
    n2: Notification,
)
    requires
        e.messageID == 7,
        p.message_id == 7,
        p.message_size == e.messageSize,
        p.driver_device == Some(e.driverDevice),
        p.error_code == Some(e.errorCode),
        decodes_to(p, n1),
        raw_decodes_to(RawNotificationMessage::IoError(e), n2),
    ensures
        n1 == n2,
        n1 == (Notification::IoError { driver_device: e.driverDevice, error_code: e.errorCode }),
{
}

/// The bridge's payload and the raw header of a notification that carries
/// nothing more (setup, thru connections or serial port owner changed, or
/// an unknown ID) decode to the same notification.
pub proof fn lemma_header_payload_agrees_with_raw(
    h: ffi::MIDINotification,
    p: NotificationPayload,
    n1: Notification,
    n2: Notification,
)
    requires
        p.message_id == h.messageID,
        p.message_size == h.messageSize,
        spec_layout_for(h.messageID) == RawNotificationLayout::Header,
        decodes_to(p, n1),
        raw_decodes_to(RawNotificationMessage::Header(h), n2),
    ensures
        n1 == n2,
{
}

} // verus!
