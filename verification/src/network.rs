//! `MIDINetworkSession` values: hosts, connections, policy and constants.
use vstd::prelude::*;
use vstd::string::StringExecFns;
use crate::error::{MidiError, MidiResult};

verus! {

/// `MIDINetworkConnectionPolicy`.
#[derive(Debug, Clone, Copy, PartialEq, Eq, Hash)]
pub enum NetworkConnectionPolicy {
    NoOne,
    HostsInContactList,
    Anyone,
}

impl NetworkConnectionPolicy {
    /// The raw value this case stands for.
    pub open spec fn spec_as_raw(self) -> i32 {
        match self {
            NetworkConnectionPolicy::NoOne => 0i32,
            NetworkConnectionPolicy::HostsInContactList => 1i32,
            NetworkConnectionPolicy::Anyone => 2i32,
        }
    }

    /// Each case stands for the code the CoreMIDI headers give it.
    pub proof fn lemma_coremidi_codes()
        ensures
            Self::spec_as_raw(NetworkConnectionPolicy::NoOne) == crate::ffi::MIDINetworkConnectionPolicy_NoOne,
            Self::spec_as_raw(NetworkConnectionPolicy::HostsInContactList) == crate::ffi::MIDINetworkConnectionPolicy_HostsInContactList,
            Self::spec_as_raw(NetworkConnectionPolicy::Anyone) == crate::ffi::MIDINetworkConnectionPolicy_Anyone,
    {
    }

    /// Different cases have different raw values.
    pub proof fn lemma_raw_injective(a: Self, b: Self)
        requires
            a.spec_as_raw() == b.spec_as_raw(),
        ensures
            a == b,
    {
    }

    /// The raw value for this case.
    pub fn as_raw(self) -> (r: i32)
        ensures
            r == self.spec_as_raw(),
    {
        match self {
            NetworkConnectionPolicy::NoOne => 0,
            NetworkConnectionPolicy::HostsInContactList => 1,
            NetworkConnectionPolicy::Anyone => 2,
        }
    }

    /// The case with this raw value, if there is one.
    pub fn from_raw(raw: i32) -> (r: Option<Self>)
        ensures
            r matches Some(v) ==> v.spec_as_raw() == raw,
            r is None ==> forall|v: Self| v.spec_as_raw() != raw,
    {
        match raw {
            0 => Some(NetworkConnectionPolicy::NoOne),
            1 => Some(NetworkConnectionPolicy::HostsInContactList),
            2 => Some(NetworkConnectionPolicy::Anyone),
            _ => None,
        }
    }
}

/// Turns the bridge's policy value into a policy; an unknown value is a
/// `Bridge` error.
pub fn policy_from_bridge(raw: i32) -> (r: MidiResult<NetworkConnectionPolicy>)
    ensures
        r matches Ok(p) ==> p.spec_as_raw() == raw,
        r is Err ==> forall|p: NetworkConnectionPolicy| p.spec_as_raw() != raw,
        r matches Err(e) ==> e matches MidiError::Bridge(m) && m@ == "unknown MIDINetworkConnectionPolicy value"@,
{
    match NetworkConnectionPolicy::from_raw(raw) {
        Some(p) => Ok(p),
        None => Err(MidiError::Bridge(String::from_str("unknown MIDINetworkConnectionPolicy value"))),
    }
}

/// Turns the bridge's port number into a port: negative values read as 0.
pub fn port_from_bridge(raw: i32) -> (r: u64)
    ensures
        raw < 0 ==> r == 0,
        raw >= 0 ==> r == raw,
{
    if raw < 0 { 0 } else { raw as u64 }
}

/// A `MIDINetworkHost`: a name and either an address and port or a
/// Bonjour service.
#[derive(Debug, Clone, PartialEq, Eq, Hash)]
pub struct NetworkHost {
    pub name: String,
    pub address: Option<String>,
    pub port: u64,
    pub net_service_name: Option<String>,
    pub net_service_domain: Option<String>,
}

impl NetworkHost {
    /// A host reached by address and port.
    pub fn with_address(name: &str, address: &str, port: u64) -> (r: Self)
        ensures
            r.name@ == name@,
            r.address matches Some(a) && a@ == address@,
            r.port == port,
            r.net_service_name is None,
            r.net_service_domain is None,
    {
        NetworkHost {
            name: name.to_string(),
            address: Some(address.to_string()),
            port,
            net_service_name: None,
            net_service_domain: None,
        }
    }

    /// A host reached through a Bonjour service.
    pub fn with_service(name: &str, net_service_name: &str, net_service_domain: &str) -> (r: Self)
        ensures
            r.name@ == name@,
            r.address is None,
            r.port == 0,
            r.net_service_name matches Some(s) && s@ == net_service_name@,
            r.net_service_domain matches Some(d) && d@ == net_service_domain@,
    {
        NetworkHost {
            name: name.to_string(),
            address: None,
            port: 0,
            net_service_name: Some(net_service_name.to_string()),
            net_service_domain: Some(net_service_domain.to_string()),
        }
    }
}

/// A `MIDINetworkConnection` to a host.
#[derive(Debug, Clone, PartialEq, Eq, Hash)]
pub struct NetworkConnection {
    pub host: NetworkHost,
}

impl NetworkConnection {
    /// A connection to `host`.
    pub fn new(host: NetworkHost) -> (r: Self)
        ensures
            r.host == host,
    {
        NetworkConnection { host }
    }
}

/// The Bonjour service type and notification names of the network session.
#[derive(Debug, Clone, PartialEq, Eq)]
pub struct NetworkConstants {
    pub bonjour_service_type: String,
    pub contacts_changed_notification: String,
    pub session_changed_notification: String,
}

/// The process's `MIDINetworkSession`.
#[derive(Debug, Clone, Copy)]
pub struct NetworkSession;

impl NetworkSession {
    /// The default session.
    pub fn default() -> (r: Self)
        ensures
            r == NetworkSession,
    {
        NetworkSession
    }
}

} // verus!
