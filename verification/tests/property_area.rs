use coremidi::endpoint::{MidiDevice, MidiEndpoint, MidiEntity};
use coremidi::prelude::MidiProperty;
use coremidi::property::{resolve_object, MidiObjectType, ResolvedMidiObject};

#[test]
fn property_area_exposes_constants_and_types() {
    assert_eq!(
        MidiObjectType::from_raw(MidiObjectType::Device.raw()),
        MidiObjectType::Device
    );
    assert!(MidiObjectType::ExternalSource.is_external());
    assert!(format!("{:?}", MidiProperty::name()).contains("MidiProperty"));
}

#[test]
fn object_types_roundtrip_through_raw_values() {
    for raw in [-1, 0, 1, 2, 3, 0x10, 0x11, 0x12, 0x13, 7, -20] {
        assert_eq!(MidiObjectType::from_raw(raw).raw(), raw);
    }
    assert_eq!(MidiObjectType::from_raw(0x12), MidiObjectType::ExternalSource);
    assert_eq!(MidiObjectType::from_raw(7), MidiObjectType::Unknown(7));
    assert!(!MidiObjectType::Source.is_external());
    assert!(!MidiObjectType::Unknown(0x14).is_external());
}

#[test]
fn objects_found_by_unique_id_are_typed() {
    assert_eq!(resolve_object(5, 0), ResolvedMidiObject::Device(MidiDevice::from_raw(5)));
    assert_eq!(resolve_object(5, 0x11), ResolvedMidiObject::Entity(MidiEntity::from_raw(5)));
    assert_eq!(resolve_object(6, 3), ResolvedMidiObject::Endpoint(MidiEndpoint::from_raw(6)));
    assert_eq!(
        resolve_object(6, -1),
        ResolvedMidiObject::Other { raw: 6, object_type: MidiObjectType::Other }
    );
}

#[test]
fn property_keys_name_the_coremidi_constants() {
    assert_eq!(MidiProperty::name().as_raw(), "kMIDIPropertyName");
    assert_eq!(MidiProperty::unique_id().as_raw(), "kMIDIPropertyUniqueID");
    assert_eq!(MidiProperty::display_name().as_raw(), "kMIDIPropertyDisplayName");
    assert_ne!(MidiProperty::name(), MidiProperty::model());
}
