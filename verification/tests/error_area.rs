use coremidi::error::result_from_status;
use coremidi::prelude::{MidiError, MidiStatus};
use coremidi::private::{swift_result, validate_c_string};

#[test]
fn statuses_roundtrip_through_raw_codes() {
    for code in -10845..=-10830 {
        let status = MidiStatus::from_raw(code);
        assert!(!matches!(status, MidiStatus::OsStatus(_)));
        assert_eq!(status.raw(), code);
    }
    assert_eq!(MidiStatus::from_raw(-10830), MidiStatus::InvalidClient);
    assert_eq!(MidiStatus::from_raw(-10845), MidiStatus::UnknownError);
    assert_eq!(MidiStatus::from_raw(-50), MidiStatus::OsStatus(-50));
    assert_eq!(MidiStatus::OsStatus(-50).raw(), -50);
}

#[test]
fn status_results() {
    assert_eq!(result_from_status(0), Ok(()));
    assert_eq!(
        result_from_status(-10842),
        Err(MidiError::Status(MidiStatus::ObjectNotFound))
    );
    assert_eq!(result_from_status(-1), Err(MidiError::Status(MidiStatus::OsStatus(-1))));
}

#[test]
fn errors_read_as_text() {
    assert_eq!(MidiStatus::InvalidPort.message(), "invalid MIDI port");
    assert_eq!(MidiStatus::OsStatus(-304).message(), "CoreMIDI returned OSStatus -304");
    assert_eq!(MidiStatus::OsStatus(7).message(), "CoreMIDI returned OSStatus 7");
    assert_eq!(MidiStatus::OsStatus(0).message(), "CoreMIDI returned OSStatus 0");
    assert_eq!(
        MidiStatus::OsStatus(i32::MIN).message(),
        "CoreMIDI returned OSStatus -2147483648"
    );
    assert_eq!(
        MidiError::BufferTooSmall { requested: usize::MAX, available: 10 }.message(),
        format!("buffer too small: requested {} bytes, available 10 bytes", usize::MAX)
    );
    assert_eq!(
        MidiError::InvalidArgument("x".to_string()).message(),
        "invalid argument: x"
    );
    assert_eq!(
        MidiError::BufferTooSmall { requested: 300, available: 256 }.message(),
        "buffer too small: requested 300 bytes, available 256 bytes"
    );
    assert_eq!(
        MidiError::Status(MidiStatus::NotPermitted).message(),
        "CoreMIDI operation not permitted"
    );
    assert_eq!(MidiError::Unsupported("y".to_string()).message(), "unsupported operation: y");
}

#[test]
fn bridge_statuses_become_results() {
    assert_eq!(swift_result(0, Some("ignored".to_string())), Ok(()));
    assert_eq!(
        swift_result(-1, Some("boom".to_string())),
        Err(MidiError::Bridge("boom".to_string()))
    );
    assert_eq!(
        swift_result(-10831, None),
        Err(MidiError::Status(MidiStatus::InvalidPort))
    );
    assert_eq!(
        swift_result(-10000, None),
        Err(MidiError::Status(MidiStatus::OsStatus(-10000)))
    );
    assert_eq!(
        swift_result(-9999, None),
        Err(MidiError::Bridge("CoreMIDI bridge returned status -9999".to_string()))
    );
    assert_eq!(
        swift_result(3, None),
        Err(MidiError::Bridge("CoreMIDI bridge returned status 3".to_string()))
    );
}

#[test]
fn c_strings_must_not_hold_nul_bytes() {
    assert_eq!(validate_c_string("client"), Ok(()));
    assert_eq!(validate_c_string(""), Ok(()));
    assert!(matches!(validate_c_string("client\0handler"), Err(MidiError::InvalidArgument(_))));
}
