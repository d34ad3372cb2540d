use coremidi::capability::{
    validate_profile_ids, validate_profile_state, CiManagementMessageType, CiProfileMessageType,
    LegacyCiProfileInfo,
};
use coremidi::prelude::MidiError;

fn profile(id: &[u8]) -> LegacyCiProfileInfo {
    LegacyCiProfileInfo { name: "Example Profile".to_string(), profile_id: id.to_vec() }
}

#[test]
fn profile_ids_must_be_five_bytes() {
    assert_eq!(validate_profile_ids(&[]), Ok(()));
    assert_eq!(validate_profile_ids(&[profile(&[0, 0, 0, 0, 0])]), Ok(()));
    assert_eq!(
        validate_profile_ids(&[profile(&[0, 0, 0, 0, 0]), profile(&[1, 2, 3])]),
        Err(MidiError::InvalidArgument(
            "MIDI-CI profile 'Example Profile' must contain exactly 5 profile-ID bytes".to_string()
        ))
    );
}

#[test]
fn profile_states_check_channel_and_ids() {
    let good = [profile(&[1, 2, 3, 4, 5])];
    assert_eq!(validate_profile_state(Some(15), &good, &[]), Ok(()));
    assert_eq!(validate_profile_state(None, &[], &good), Ok(()));
    assert_eq!(
        validate_profile_state(Some(16), &good, &[]),
        Err(MidiError::InvalidArgument(
            "MIDI-CI profile-state channel must be in the range 0..=15".to_string()
        ))
    );
    assert!(matches!(
        validate_profile_state(Some(0), &good, &[profile(&[1])]),
        Err(MidiError::InvalidArgument(_))
    ));
}

#[test]
fn ci_message_types_roundtrip() {
    for raw in 0u8..=255 {
        if let Some(kind) = CiManagementMessageType::from_raw(raw) {
            assert_eq!(kind.as_raw(), raw);
        }
        if let Some(kind) = CiProfileMessageType::from_raw(raw) {
            assert_eq!(kind.as_raw(), raw);
        }
    }
    assert_eq!(CiManagementMessageType::from_raw(0x7F), Some(CiManagementMessageType::MidiCiNak));
}
