use coremidi::port::{check_request, ConnectionTable, InputPortKind, PortRequest};
use coremidi::prelude::{MidiError, MidiInputPort, MidiOutputPort, MidiStatus};

#[test]
fn input_ports_reject_connections_meant_for_another_kind() {
    let protocol_port = MidiInputPort::from_raw(1, InputPortKind::Callbacks);
    let receiver_port = MidiInputPort::from_raw(2, InputPortKind::Receiver);

    assert_eq!(
        protocol_port.check(PortRequest::ConnectSource),
        Err(MidiError::Unsupported(
            "connect_source requires a port created with MidiClient::input_port".to_string()
        ))
    );
    assert!(matches!(
        protocol_port.check(PortRequest::ConnectReceiver),
        Err(MidiError::Unsupported(_))
    ));
    assert!(matches!(
        receiver_port.check(PortRequest::ConnectWithProtocolCallback),
        Err(MidiError::Unsupported(_))
    ));
    assert!(matches!(
        receiver_port.check(PortRequest::ConnectSource),
        Err(MidiError::Unsupported(_))
    ));
}

#[test]
fn each_port_kind_serves_its_own_requests() {
    assert_eq!(check_request(InputPortKind::Legacy, PortRequest::ConnectSource), Ok(()));
    assert_eq!(
        check_request(InputPortKind::Callbacks, PortRequest::ConnectWithProtocolCallback),
        Ok(())
    );
    assert_eq!(check_request(InputPortKind::Receiver, PortRequest::ConnectReceiver), Ok(()));
    assert!(check_request(InputPortKind::Legacy, PortRequest::ConnectReceiver).is_err());
    let port = MidiInputPort::from_raw(9, InputPortKind::Legacy);
    assert_eq!(port.raw(), 9);
    assert_eq!(port.kind(), InputPortKind::Legacy);
    assert_eq!(MidiOutputPort::from_raw(3).raw(), 3);
}

#[test]
fn connection_table_keeps_one_entry_per_source() {
    let mut table: ConnectionTable<&str> = ConnectionTable::new();
    assert_eq!(table.replace(42, "first"), None);
    assert_eq!(table.replace(43, "other"), None);
    assert_eq!(table.replace(42, "second"), Some("first"));
    assert_eq!(table.get(42), Some(&"second"));
    assert!(table.contains(43));
    assert_eq!(table.remove(42), Some("second"));
    assert!(!table.contains(42));
    assert_eq!(table.remove(42), None);
    assert_eq!(table.get(43), Some(&"other"));
    table.clear();
    assert!(!table.contains(43));
}

#[test]
fn connection_table_restores_what_a_failed_connect_displaced() {
    let mut table: ConnectionTable<u8> = ConnectionTable::new();
    assert_eq!(table.replace(42, 1), None);
    let previous = table.replace(42, 2);
    table.restore(42, previous);
    assert_eq!(table.get(42), Some(&1));

    let previous = table.replace(7, 3);
    assert_eq!(previous, None);
    table.restore(7, previous);
    assert!(!table.contains(7));
    assert_eq!(table.get(42), Some(&1));
}

#[test]
fn a_failed_connect_is_rolled_back_and_reported() {
    let mut table: ConnectionTable<u8> = ConnectionTable::new();
    assert_eq!(table.replace(42, 1), None);
    let previous = table.replace(42, 2);
    assert_eq!(table.finish_connect(42, previous, 0), Ok(()));
    assert_eq!(table.get(42), Some(&2));

    let previous = table.replace(42, 3);
    assert_eq!(
        table.finish_connect(42, previous, -10833),
        Err(MidiError::Status(MidiStatus::NoConnection))
    );
    assert_eq!(table.get(42), Some(&2));

    let previous = table.replace(7, 9);
    assert_eq!(
        table.finish_connect(7, previous, -1),
        Err(MidiError::Status(MidiStatus::OsStatus(-1)))
    );
    assert!(!table.contains(7));
}
