use coremidi::driver::DriverOwnedDevice;
use coremidi::endpoint::{
    destinations, device_from_ref, endpoint_from_ref, entity_from_ref, external_devices, sources,
    DeviceIterKind, EndpointIterKind,
};
use coremidi::prelude::{devices, MidiDevice, MidiEndpoint, MidiEntity, VirtualDestination, VirtualSource};

#[test]
fn iterators_visit_each_index_once() {
    let mut all = devices(3);
    assert_eq!(all.next_index(), Some((DeviceIterKind::SystemDevices, 0)));
    assert_eq!(all.next_index(), Some((DeviceIterKind::SystemDevices, 1)));
    assert_eq!(all.next_index(), Some((DeviceIterKind::SystemDevices, 2)));
    assert_eq!(all.next_index(), None);
    assert_eq!(all.next_index(), None);
    assert_eq!(external_devices(0).next_index(), None);
    let mut external = external_devices(1);
    assert_eq!(external.next_index(), Some((DeviceIterKind::ExternalDevices, 0)));
    assert_eq!(external.next_index(), None);

    let device = MidiDevice::from_raw(10);
    let mut entities = device.entities(2);
    assert_eq!(entities.next_index(), Some((device, 0)));
    assert_eq!(entities.next_index(), Some((device, 1)));
    assert_eq!(entities.next_index(), None);

    let entity = MidiEntity::from_raw(20);
    let mut outs = entity.destinations(1);
    assert_eq!(outs.next_index(), Some((EndpointIterKind::EntityDestinations(entity), 0)));
    assert_eq!(outs.next_index(), None);
    assert_eq!(entity.sources(1).next_index(), Some((EndpointIterKind::EntitySources(entity), 0)));
    assert_eq!(sources(1).next_index(), Some((EndpointIterKind::SystemSources, 0)));
    assert_eq!(destinations(1).next_index(), Some((EndpointIterKind::SystemDestinations, 0)));
}

#[test]
fn device_and_entity_walks_cover_every_index() {
    let mut walked = Vec::new();
    let mut all = devices(2);
    while let Some((kind, index)) = all.next_index() {
        assert_eq!(kind, DeviceIterKind::SystemDevices);
        let device = MidiDevice::from_raw(100 + index as u32);
        let mut entities = device.entities(3);
        while let Some((owner, entity_index)) = entities.next_index() {
            assert_eq!(owner, device);
            walked.push((index, entity_index));
        }
    }
    assert_eq!(walked, vec![(0, 0), (0, 1), (0, 2), (1, 0), (1, 1), (1, 2)]);
    let mut external = external_devices(2);
    assert_eq!(external.next_index(), Some((DeviceIterKind::ExternalDevices, 0)));
    assert_eq!(external.next_index(), Some((DeviceIterKind::ExternalDevices, 1)));
    assert_eq!(external.next_index(), None);
}

#[test]
fn zero_references_are_no_object() {
    assert_eq!(device_from_ref(0), None);
    assert_eq!(device_from_ref(5), Some(MidiDevice::from_raw(5)));
    assert_eq!(entity_from_ref(0), None);
    assert_eq!(endpoint_from_ref(6).map(MidiEndpoint::raw), Some(6));
    assert_eq!(VirtualSource::from_raw(8).endpoint(), MidiEndpoint::from_raw(8));
    assert_eq!(VirtualDestination::from_raw(9).raw(), 9);
    let owned = DriverOwnedDevice::from_raw(11);
    assert_eq!(owned.raw(), 11);
    assert_eq!(owned.as_midi_device(), MidiDevice::from_raw(11));
}
