use coremidi::ffi::{MIDIIOErrorNotification, MIDINotification, MIDIObjectAddRemoveNotification};
use coremidi::notification::{
    layout_for, Notification, NotificationMessageId, NotificationPayload, RawNotificationLayout,
    RawNotificationMessage,
};
use coremidi::prelude::MidiError;
use coremidi::property::MidiObjectType;

fn payload(message_id: i32) -> NotificationPayload {
    NotificationPayload {
        message_id,
        message_size: 32,
        parent: None,
        parent_type: None,
        child: None,
        child_type: None,
        object: None,
        object_type: None,
        property_name: None,
        driver_device: None,
        error_code: None,
    }
}

#[test]
fn notification_area_decodes_json_payloads() {
    let mut fields = payload(4);
    fields.object = Some(1);
    fields.object_type = Some(2);
    fields.property_name = Some("displayName".to_string());
    let notification = Notification::from_payload(fields).expect("notification must decode");
    match notification {
        Notification::PropertyChanged {
            object,
            property_name,
            ..
        } => {
            assert_eq!(object, 1);
            assert_eq!(property_name, "displayName");
        }
        other => panic!("unexpected notification: {other:?}"),
    }
}

#[test]
fn payloads_missing_required_fields_are_refused() {
    let mut added = payload(2);
    added.child = Some(9);
    assert_eq!(
        Notification::from_payload(added.clone()),
        Err(MidiError::Serialization("missing child type in notification payload".to_string()))
    );
    added.child_type = Some(0x12);
    added.parent = Some(3);
    added.parent_type = Some(0);
    assert_eq!(
        Notification::from_payload(added),
        Ok(Notification::ObjectAdded {
            parent: Some(3),
            parent_type: Some(MidiObjectType::Device),
            child: 9,
            child_type: MidiObjectType::ExternalSource,
        })
    );
    let mut changed = payload(4);
    changed.object = Some(1);
    assert_eq!(
        Notification::from_payload(changed.clone()),
        Err(MidiError::Serialization("missing object type in property change payload".to_string()))
    );
    assert_eq!(
        Notification::from_payload(payload(3)),
        Err(MidiError::Serialization("missing child object in notification payload".to_string()))
    );
    changed.object_type = Some(3);
    assert_eq!(
        Notification::from_payload(changed),
        Ok(Notification::PropertyChanged {
            object: 1,
            object_type: MidiObjectType::Destination,
            property_name: String::new(),
        })
    );
}

#[test]
fn simple_payloads_decode_by_message_id() {
    assert_eq!(Notification::from_payload(payload(1)), Ok(Notification::SetupChanged));
    assert_eq!(Notification::from_payload(payload(5)), Ok(Notification::ThruConnectionsChanged));
    assert_eq!(Notification::from_payload(payload(6)), Ok(Notification::SerialPortOwnerChanged));
    assert_eq!(
        Notification::from_payload(payload(7)),
        Ok(Notification::IoError { driver_device: 0, error_code: 0 })
    );
    assert_eq!(
        Notification::from_payload(payload(0x1000)),
        Ok(Notification::Unknown { message_id: 0x1000, message_size: 32 })
    );
}

#[test]
fn raw_notifications_decode_by_layout() {
    assert_eq!(layout_for(2), RawNotificationLayout::AddRemove);
    assert_eq!(layout_for(4), RawNotificationLayout::PropertyChange);
    assert_eq!(layout_for(7), RawNotificationLayout::IoError);
    assert_eq!(layout_for(1), RawNotificationLayout::Header);
    let removed = RawNotificationMessage::AddRemove(MIDIObjectAddRemoveNotification {
        messageID: 3,
        messageSize: 24,
        parent: 0,
        parentType: 0,
        child: 17,
        childType: 2,
    });
    assert_eq!(
        Notification::from_raw_message(removed),
        Notification::ObjectRemoved {
            parent: None,
            parent_type: None,
            child: 17,
            child_type: MidiObjectType::Source,
        }
    );
    let io = RawNotificationMessage::IoError(MIDIIOErrorNotification {
        messageID: 7,
        messageSize: 16,
        driverDevice: 4,
        errorCode: -10845,
    });
    assert_eq!(
        Notification::from_raw_message(io),
        Notification::IoError { driver_device: 4, error_code: -10845 }
    );
    let header = RawNotificationMessage::Header(MIDINotification { messageID: 1, messageSize: 8 });
    assert_eq!(Notification::from_raw_message(header), Notification::SetupChanged);
    let odd = RawNotificationMessage::Header(MIDINotification { messageID: 2, messageSize: 8 });
    assert_eq!(
        Notification::from_raw_message(odd),
        Notification::Unknown { message_id: 2, message_size: 8 }
    );
    let property = RawNotificationMessage::PropertyChange {
        message_id: 4,
        message_size: 24,
        object: 5,
        object_type: 1,
        property_name: "name".to_string(),
    };
    assert_eq!(
        Notification::from_raw_message(property),
        Notification::PropertyChanged {
            object: 5,
            object_type: MidiObjectType::Entity,
            property_name: "name".to_string(),
        }
    );
}

#[test]
fn message_ids_roundtrip() {
    for raw in [1, 2, 3, 4, 5, 6, 7, 0x1000] {
        let id = NotificationMessageId::from_raw(raw).expect("known id");
        assert_eq!(id.as_raw(), raw);
    }
    assert_eq!(NotificationMessageId::from_raw(8), None);
}
