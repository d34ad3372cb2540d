use coremidi::ffi::{MIDIControlTransform, MIDITransform};
use coremidi::prelude::MidiError;
use coremidi::thru_connection::params::connection_refs_from_bytes;
use coremidi::thru_connection::{
    MidiControlTransform, MidiControlType, MidiTransform, MidiTransformKind, ThruConnection,
    ThruConnectionEndpoint, ThruConnectionParams,
};

#[test]
fn thru_connection_area_roundtrips_params() {
    let params = ThruConnectionParams::default();
    let bytes = params.to_bytes().expect("serialize thru params");
    let decoded = ThruConnectionParams::from_bytes(&bytes).expect("deserialize thru params");
    assert_eq!(params, decoded);

    let transform = MidiTransform {
        kind: MidiTransformKind::Add,
        param: 12,
    };
    assert_eq!(
        MidiTransform::from_raw(transform.into_raw()).expect("decode raw transform"),
        transform
    );
}

#[test]
fn default_params_are_a_pass_through() {
    let params = ThruConnectionParams::default();
    assert_eq!(params.sources.len(), 0);
    assert_eq!(params.destinations.len(), 0);
    for (channel, mapped) in params.channel_map.iter().enumerate() {
        assert_eq!(*mapped as usize, channel);
    }
    assert_eq!(params.low_velocity, 0);
    assert_eq!(params.high_velocity, 127);
    assert_eq!(params.low_note, 0);
    assert_eq!(params.high_note, 127);
    assert_eq!(params.note_number, MidiTransform::identity());
    assert!(params.control_transforms.is_empty());
    assert!(params.maps.is_empty());
    assert!(!params.filter_out_sysex);
    let bytes = params.to_bytes().expect("serialize");
    assert_eq!(bytes.len(), 204);
}

#[test]
fn params_with_endpoints_controls_and_maps_roundtrip() {
    let mut params = ThruConnectionParams::default();
    params.sources.push(ThruConnectionEndpoint { endpoint_ref: 11, unique_id: -5 });
    params.destinations.push(ThruConnectionEndpoint { endpoint_ref: 22, unique_id: 7 });
    params.destinations.push(ThruConnectionEndpoint { endpoint_ref: 23, unique_id: 8 });
    params.filter_out_sysex = true;
    params.filter_out_all_controls = true;
    params.version = 3;
    params.velocity = MidiTransform { kind: MidiTransformKind::Scale, param: -3 };
    params.control_transforms.push(MidiControlTransform {
        control_type: MidiControlType::SevenBit,
        remapped_control_type: MidiControlType::FourteenBit,
        control_number: 7,
        transform: MidiTransform { kind: MidiTransformKind::MapControl, param: 10 },
    });
    params.maps.push(0x1234);
    params.maps.push(0xFFFF);
    let bytes = params.to_bytes().expect("serialize");
    assert_eq!(bytes.len(), 204 + 8 + 2 * 2);
    assert_eq!(&bytes[204 + 8..], &[0x34, 0x12, 0xFF, 0xFF]);
    let decoded = ThruConnectionParams::from_bytes(&bytes).expect("deserialize");
    assert_eq!(decoded, params);

    for i in 0..8 {
        params.sources.push(ThruConnectionEndpoint { endpoint_ref: 100 + i, unique_id: 0 });
    }
    assert_eq!(
        params.to_bytes(),
        Err(MidiError::Bridge("too many thru connection sources".to_string()))
    );
}

#[test]
fn malformed_param_blobs_are_refused() {
    let bytes = ThruConnectionParams::default().to_bytes().expect("serialize");
    assert_eq!(
        ThruConnectionParams::from_bytes(&bytes[..203]),
        Err(MidiError::Bridge("thru connection parameter blob is too small".to_string()))
    );
    // announce one control that is not there
    let mut truncated = bytes.clone();
    truncated[192] = 1;
    assert_eq!(
        ThruConnectionParams::from_bytes(&truncated),
        Err(MidiError::Bridge("thru connection parameter blob is truncated".to_string()))
    );
    // a control transform whose remapped type is unknown
    let mut bad_control = bytes.clone();
    bad_control[192] = 1;
    bad_control.extend_from_slice(&[0, 7, 0, 0, 0, 0, 0, 0]);
    assert_eq!(
        ThruConnectionParams::from_bytes(&bad_control),
        Err(MidiError::Bridge("unknown MIDIControlType 7".to_string()))
    );
    // an unknown transform kind for the note-number transform
    let mut unknown = bytes.clone();
    unknown[160] = 0x55;
    assert_eq!(
        ThruConnectionParams::from_bytes(&unknown),
        Err(MidiError::Bridge("unknown MIDITransform kind 85".to_string()))
    );
}

#[test]
fn raw_transforms_with_unknown_kinds_are_refused() {
    assert_eq!(
        MidiTransform::from_raw(MIDITransform { transform: 99, param: 0 }),
        Err(MidiError::Bridge("unknown MIDITransform kind 99".to_string()))
    );
    assert_eq!(MidiTransformKind::from_raw(12), Some(MidiTransformKind::MapValue));
    assert_eq!(MidiTransformKind::from_raw(3), None);
    assert_eq!(MidiTransformKind::from_raw(0), Some(MidiTransformKind::NoTransform));
    assert_eq!(MidiControlType::from_raw(0x6), None);
    let raw = MIDIControlTransform {
        controlType: 0,
        remappedControlType: 9,
        controlNumber: 1,
        transform: 0,
        param: 0,
    };
    assert_eq!(
        MidiControlTransform::from_raw(raw),
        Err(MidiError::Bridge("unknown MIDIControlType 9".to_string()))
    );
    let bad_kind = MIDIControlTransform { remappedControlType: 0, transform: 4, ..raw };
    assert_eq!(
        MidiControlTransform::from_raw(bad_kind),
        Err(MidiError::Bridge("unknown MIDITransform kind 4".to_string()))
    );
    let good = MidiControlTransform {
        control_type: MidiControlType::SevenBitRpn,
        remapped_control_type: MidiControlType::FourteenBitNrpn,
        control_number: 300,
        transform: MidiTransform { kind: MidiTransformKind::MaxValue, param: 0 },
    };
    assert_eq!(MidiControlTransform::from_raw(good.into_raw()).expect("decode"), good);
    let endpoint = ThruConnectionEndpoint { endpoint_ref: 5, unique_id: -1 };
    assert_eq!(ThruConnectionEndpoint::from_raw(endpoint.into_raw()), endpoint);
    assert_eq!(ThruConnection::from_raw(77).raw(), 77);
}

#[test]
fn find_blobs_split_into_connection_refs() {
    let refs = connection_refs_from_bytes(&[1, 0, 0, 0, 0, 1, 0, 0]).expect("aligned");
    assert_eq!(refs, vec![1, 256]);
    assert_eq!(connection_refs_from_bytes(&[]).expect("empty"), Vec::<u32>::new());
    assert_eq!(
        connection_refs_from_bytes(&[1, 2, 3]),
        Err(MidiError::Bridge("thru connection find blob is not connection-ref aligned".to_string()))
    );
}
