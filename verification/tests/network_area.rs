use coremidi::network::{
    policy_from_bridge, port_from_bridge, NetworkConnection, NetworkConnectionPolicy, NetworkHost,
    NetworkSession,
};
use coremidi::prelude::MidiError;

#[test]
fn hosts_and_connections_keep_their_fields() {
    let host = NetworkHost::with_address("example", "127.0.0.1", 5004);
    assert_eq!(host.name, "example");
    assert_eq!(host.address.as_deref(), Some("127.0.0.1"));
    assert_eq!(host.port, 5004);
    assert_eq!(host.net_service_name, None);
    let connection = NetworkConnection::new(host.clone());
    assert_eq!(connection.host, host);

    let service = NetworkHost::with_service("studio", "Studio Session", "local.");
    assert_eq!(service.address, None);
    assert_eq!(service.port, 0);
    assert_eq!(service.net_service_name.as_deref(), Some("Studio Session"));
    assert_eq!(service.net_service_domain.as_deref(), Some("local."));
    let _session = NetworkSession::default();
}

#[test]
fn bridge_values_become_policies_and_ports() {
    assert_eq!(policy_from_bridge(0), Ok(NetworkConnectionPolicy::NoOne));
    assert_eq!(policy_from_bridge(2), Ok(NetworkConnectionPolicy::Anyone));
    assert!(matches!(policy_from_bridge(3), Err(MidiError::Bridge(_))));
    assert_eq!(NetworkConnectionPolicy::from_raw(1), Some(NetworkConnectionPolicy::HostsInContactList));
    assert_eq!(NetworkConnectionPolicy::Anyone.as_raw(), 2);
    assert_eq!(port_from_bridge(5004), 5004);
    assert_eq!(port_from_bridge(-1), 0);
}
