//! Connectivity and state related types of the network manager: the network manager
//! state as well as connection and device state, and the waiting conditions on them.

use vstd::prelude::*;

verus! {

/// The network manager's overall state.
#[derive(Copy, Clone, Debug, PartialEq, Eq, Structural)]
pub enum NetworkManagerState {
    Unknown,
    Asleep,
    Disconnected,
    Disconnecting,
    Connecting,
    ConnectedLocal,
    ConnectedSite,
    ConnectedGlobal,
}

/// The bit that stands for a state in a set of states.
pub open spec fn state_bit(s: NetworkManagerState) -> u8 {
    match s {
        NetworkManagerState::Unknown => 128,
        NetworkManagerState::Asleep => 1,
        NetworkManagerState::Disconnected => 2,
        NetworkManagerState::Disconnecting => 4,
        NetworkManagerState::Connecting => 8,
        NetworkManagerState::ConnectedLocal => 16,
        NetworkManagerState::ConnectedSite => 32,
        NetworkManagerState::ConnectedGlobal => 64,
    }
}

/// The state for the network manager's numeric code; undefined codes are `Unknown`.
pub open spec fn nm_state_of(state: u32) -> NetworkManagerState {
    if state == 10 {
        NetworkManagerState::Asleep
    } else if state == 20 {
        NetworkManagerState::Disconnected
    } else if state == 30 {
        NetworkManagerState::Disconnecting
    } else if state == 40 {
        NetworkManagerState::Connecting
    } else if state == 50 {
        NetworkManagerState::ConnectedLocal
    } else if state == 60 {
        NetworkManagerState::ConnectedSite
    } else if state == 70 {
        NetworkManagerState::ConnectedGlobal
    } else {
        NetworkManagerState::Unknown
    }
}

impl NetworkManagerState {
    /// Maps the network manager's numeric state.
    pub fn from_code(state: u32) -> (r: NetworkManagerState)
        ensures
            r == nm_state_of(state),
    {
        match state {
            0 => NetworkManagerState::Unknown,
            10 => NetworkManagerState::Asleep,
            20 => NetworkManagerState::Disconnected,
            30 => NetworkManagerState::Disconnecting,
            40 => NetworkManagerState::Connecting,
            50 => NetworkManagerState::ConnectedLocal,
            60 => NetworkManagerState::ConnectedSite,
            70 => NetworkManagerState::ConnectedGlobal,
            _ => NetworkManagerState::Unknown,
        }
    }

    /// The bit of this state in a set of states.
    pub fn bit(&self) -> (r: u8)
        ensures
            r == state_bit(*self),
    {
        match self {
            NetworkManagerState::Unknown => 128,
            NetworkManagerState::Asleep => 1,
            NetworkManagerState::Disconnected => 2,
            NetworkManagerState::Disconnecting => 4,
            NetworkManagerState::Connecting => 8,
            NetworkManagerState::ConnectedLocal => 16,
            NetworkManagerState::ConnectedSite => 32,
            NetworkManagerState::ConnectedGlobal => 64,
        }
    }
}

/// A set of network manager states, one bit per state.
#[derive(Copy, Clone, Debug, PartialEq, Eq, Structural)]
pub struct StateSet {
    pub bits: u8,
}

/// True iff the set holds the state.
pub open spec fn set_has(set: StateSet, s: NetworkManagerState) -> bool {
    set.bits & state_bit(s) != 0
}

impl StateSet {
    /// True iff the set holds the state.
    pub fn contains(&self, s: NetworkManagerState) -> (r: bool)
        ensures
            r == set_has(*self, s),
    {
        self.bits & s.bit() != 0
    }
}

/// The states in which the network manager is not connected: unknown, asleep, disconnected.
pub fn network_manager_state_not_connected() -> (r: StateSet)
    ensures
        forall|s: NetworkManagerState| set_has(r, s) <==> (s == NetworkManagerState::Unknown
            || s == NetworkManagerState::Asleep || s == NetworkManagerState::Disconnected),
{
    let r = StateSet { bits: 131 };
    assert(forall|b: u8| (b == 128 || b == 1 || b == 2 || b == 4 || b == 8 || b == 16 || b == 32 || b == 64)
        ==> ((131u8 & b != 0) <==> (b == 128 || b == 1 || b == 2))) by (bit_vector);
    r
}

/// The states in which the network manager is connected: local, site and global connectivity.
pub fn network_manager_state_connected() -> (r: StateSet)
    ensures
        forall|s: NetworkManagerState| set_has(r, s) <==> (s == NetworkManagerState::ConnectedLocal
            || s == NetworkManagerState::ConnectedSite || s == NetworkManagerState::ConnectedGlobal),
{
    let r = StateSet { bits: 112 };
    assert(forall|b: u8| (b == 128 || b == 1 || b == 2 || b == 4 || b == 8 || b == 16 || b == 32 || b == 64)
        ==> ((112u8 & b != 0) <==> (b == 16 || b == 32 || b == 64))) by (bit_vector);
    r
}

/// The transitional states: connecting and disconnecting.
pub fn network_manager_state_temp() -> (r: StateSet)
    ensures
        forall|s: NetworkManagerState| set_has(r, s) <==> (s == NetworkManagerState::Connecting
            || s == NetworkManagerState::Disconnecting),
{
    let r = StateSet { bits: 12 };
    assert(forall|b: u8| (b == 128 || b == 1 || b == 2 || b == 4 || b == 8 || b == 16 || b == 32 || b == 64)
        ==> ((12u8 & b != 0) <==> (b == 4 || b == 8))) by (bit_vector);
    r
}

/// The waiting condition on the network manager state: the state is one of the
/// expected ones, or, when negated, none of them.
pub fn state_reached(expected: StateSet, state: NetworkManagerState, negate: bool) -> (r: bool)
    ensures
        r == (set_has(expected, state) != negate),
{
    expected.contains(state) ^ negate
}

/// The network's reach as reported by the network manager.
#[derive(Copy, Clone, Debug, PartialEq, Eq, Structural)]
pub enum Connectivity {
    Unknown,
    NoConnectivity,
    Portal,
    Limited,
    Full,
}

/// The bit that stands for a connectivity in a set.
pub open spec fn connectivity_bit(c: Connectivity) -> u8 {
    match c {
        Connectivity::Unknown => 128,
        Connectivity::NoConnectivity => 1,
        Connectivity::Portal => 2,
        Connectivity::Limited => 4,
        Connectivity::Full => 8,
    }
}

/// The connectivity for the network manager's numeric code; undefined codes are `Unknown`.
pub open spec fn connectivity_of(state: u32) -> Connectivity {
    if state == 1 {
        Connectivity::NoConnectivity
    } else if state == 2 {
        Connectivity::Portal
    } else if state == 3 {
        Connectivity::Limited
    } else if state == 4 {
        Connectivity::Full
    } else {
        Connectivity::Unknown
    }
}

impl Connectivity {
    /// Maps the network manager's numeric connectivity.
    pub fn from_code(state: u32) -> (r: Connectivity)
        ensures
            r == connectivity_of(state),
    {
        match state {
            0 => Connectivity::Unknown,
            1 => Connectivity::NoConnectivity,
            2 => Connectivity::Portal,
            3 => Connectivity::Limited,
            4 => Connectivity::Full,
            _ => Connectivity::Unknown,
        }
    }

    /// The bit of this connectivity in a set.
    pub fn bit(&self) -> (r: u8)
        ensures
            r == connectivity_bit(*self),
    {
        match self {
            Connectivity::Unknown => 128,
            Connectivity::NoConnectivity => 1,
            Connectivity::Portal => 2,
            Connectivity::Limited => 4,
            Connectivity::Full => 8,
        }
    }
}

/// A set of connectivities, one bit each.
#[derive(Copy, Clone, Debug, PartialEq, Eq, Structural)]
pub struct ConnectivitySet {
    pub bits: u8,
}

/// True iff the set holds the connectivity.
pub open spec fn connectivity_set_has(set: ConnectivitySet, c: Connectivity) -> bool {
    set.bits & connectivity_bit(c) != 0
}

impl ConnectivitySet {
    /// True iff the set holds the connectivity.
    pub fn contains(&self, c: Connectivity) -> (r: bool)
        ensures
            r == connectivity_set_has(*self, c),
    {
        self.bits & c.bit() != 0
    }
}

/// The connectivity a connection must reach: full connectivity if internet connectivity
/// is required, otherwise full, limited or portal connectivity.
pub fn expected_connectivity(internet_connectivity: bool) -> (r: ConnectivitySet)
    ensures
        forall|c: Connectivity| connectivity_set_has(r, c) <==> (if internet_connectivity {
            c == Connectivity::Full
        } else {
            c == Connectivity::Full || c == Connectivity::Limited || c == Connectivity::Portal
        }),
{
    if internet_connectivity {
        assert(forall|b: u8| (b == 128 || b == 1 || b == 2 || b == 4 || b == 8)
            ==> ((8u8 & b != 0) <==> (b == 8))) by (bit_vector);
        ConnectivitySet { bits: 8 }
    } else {
        assert(forall|b: u8| (b == 128 || b == 1 || b == 2 || b == 4 || b == 8)
            ==> ((14u8 & b != 0) <==> (b == 8 || b == 4 || b == 2))) by (bit_vector);
        ConnectivitySet { bits: 14 }
    }
}

/// The waiting condition on the connectivity: it is one of the expected ones, or,
/// when negated, none of them.
pub fn connectivity_reached(expected: ConnectivitySet, c: Connectivity, negate: bool) -> (r: bool)
    ensures
        r == (connectivity_set_has(expected, c) != negate),
{
    expected.contains(c) ^ negate
}

/// The state of a (network manager) connection.
#[derive(Copy, Clone, Debug, Eq, PartialEq, Structural)]
pub enum ConnectionState {
    Unknown,
    Activating,
    Activated,
    Deactivating,
    Deactivated,
}

/// The connection state for its numeric code; undefined codes are `Unknown`.
pub open spec fn connection_state_of(state: u32) -> ConnectionState {
    if state == 1 {
        ConnectionState::Activating
    } else if state == 2 {
        ConnectionState::Activated
    } else if state == 3 {
        ConnectionState::Deactivating
    } else if state == 4 {
        ConnectionState::Deactivated
    } else {
        ConnectionState::Unknown
    }
}

impl ConnectionState {
    /// Maps the numeric connection state.
    pub fn from_code(state: u32) -> (r: ConnectionState)
        ensures
            r == connection_state_of(state),
    {
        match state {
            0 => ConnectionState::Unknown,
            1 => ConnectionState::Activating,
            2 => ConnectionState::Activated,
            3 => ConnectionState::Deactivating,
            4 => ConnectionState::Deactivated,
            _ => ConnectionState::Unknown,
        }
    }
}

/// The waiting condition on an active connection: the state is the expected one,
/// or, when negated, another one.
pub fn connection_state_reached(state: ConnectionState, expected: ConnectionState, negate: bool) -> (r: bool)
    ensures
        r == ((state == expected) != negate),
{
    (state == expected) ^ negate
}

/// The state of a network device.
#[derive(Copy, Clone, Debug, PartialEq, Eq, Structural)]
pub enum DeviceState {
    Unknown,
    Unmanaged,
    Unavailable,
    Disconnected,
    Prepare,
    Config,
    NeedAuth,
    IpConfig,
    IpCheck,
    Secondaries,
    Activated,
    Deactivating,
    Failed,
}

/// The device state for its numeric code (multiples of ten); others are `Unknown`.
pub open spec fn device_state_of(state: i64) -> DeviceState {
    if state == 10 {
        DeviceState::Unmanaged
    } else if state == 20 {
        DeviceState::Unavailable
    } else if state == 30 {
        DeviceState::Disconnected
    } else if state == 40 {
        DeviceState::Prepare
    } else if state == 50 {
        DeviceState::Config
    } else if state == 60 {
        DeviceState::NeedAuth
    } else if state == 70 {
        DeviceState::IpConfig
    } else if state == 80 {
        DeviceState::IpCheck
    } else if state == 90 {
        DeviceState::Secondaries
    } else if state == 100 {
        DeviceState::Activated
    } else if state == 110 {
        DeviceState::Deactivating
    } else if state == 120 {
        DeviceState::Failed
    } else {
        DeviceState::Unknown
    }
}

impl DeviceState {
    /// Maps the numeric device state.
    pub fn from_code(state: i64) -> (r: DeviceState)
        ensures
            r == device_state_of(state),
    {
        match state {
            0 => DeviceState::Unknown,
            10 => DeviceState::Unmanaged,
            20 => DeviceState::Unavailable,
            30 => DeviceState::Disconnected,
            40 => DeviceState::Prepare,
            50 => DeviceState::Config,
            60 => DeviceState::NeedAuth,
            70 => DeviceState::IpConfig,
            80 => DeviceState::IpCheck,
            90 => DeviceState::Secondaries,
            100 => DeviceState::Activated,
            110 => DeviceState::Deactivating,
            120 => DeviceState::Failed,
            _ => DeviceState::Unknown,
        }
    }
}

/// The kind of a network device.
#[derive(Copy, Clone, Debug, PartialEq, Eq, Structural)]
pub enum DeviceType {
    Unknown,
    Ethernet,
    WiFi,
    Unused1,
    Unused2,
    Bt,
    OlpcMesh,
    Wimax,
    Modem,
    Infiniband,
    Bond,
    Vlan,
    Adsl,
    Bridge,
    Generic,
    Team,
    Tun,
    IpTunnel,
    Macvlan,
    Vxlan,
    Veth,
    Macsec,
    Dummy,
}

/// The numeric code of a device kind.
pub open spec fn device_type_code(t: DeviceType) -> i64 {
    match t {
        DeviceType::Unknown => 0,
        DeviceType::Ethernet => 1,
        DeviceType::WiFi => 2,
        DeviceType::Unused1 => 3,
        DeviceType::Unused2 => 4,
        DeviceType::Bt => 5,
        DeviceType::OlpcMesh => 6,
        DeviceType::Wimax => 7,
        DeviceType::Modem => 8,
        DeviceType::Infiniband => 9,
        DeviceType::Bond => 10,
        DeviceType::Vlan => 11,
        DeviceType::Adsl => 12,
        DeviceType::Bridge => 13,
        DeviceType::Generic => 14,
        DeviceType::Team => 15,
        DeviceType::Tun => 16,
        DeviceType::IpTunnel => 17,
        DeviceType::Macvlan => 18,
        DeviceType::Vxlan => 19,
        DeviceType::Veth => 20,
        DeviceType::Macsec => 21,
        DeviceType::Dummy => 22,
    }
}

impl DeviceType {
    /// The device kind for a numeric code.
    pub open spec fn from_code_spec(device_type: i64) -> DeviceType {
        if 0 <= device_type <= 22 {
            choose|t: DeviceType| device_type_code(t) == device_type
        } else {
            DeviceType::Unknown
        }
    }

    /// Maps the numeric device kind: the kind whose code it is, `Unknown` for
    /// codes outside 0 to 22.
    pub fn from_code(device_type: i64) -> (r: DeviceType)
        ensures
            0 <= device_type <= 22 ==> device_type_code(r) == device_type,
            !(0 <= device_type <= 22) ==> r == DeviceType::Unknown,
            r == DeviceType::from_code_spec(device_type),
    {
        let r = match device_type {
            0 => DeviceType::Unknown,
            1 => DeviceType::Ethernet,
            2 => DeviceType::WiFi,
            3 => DeviceType::Unused1,
            4 => DeviceType::Unused2,
            5 => DeviceType::Bt,
            6 => DeviceType::OlpcMesh,
            7 => DeviceType::Wimax,
            8 => DeviceType::Modem,
            9 => DeviceType::Infiniband,
            10 => DeviceType::Bond,
            11 => DeviceType::Vlan,
            12 => DeviceType::Adsl,
            13 => DeviceType::Bridge,
            14 => DeviceType::Generic,
            15 => DeviceType::Team,
            16 => DeviceType::Tun,
            17 => DeviceType::IpTunnel,
            18 => DeviceType::Macvlan,
            19 => DeviceType::Vxlan,
            20 => DeviceType::Veth,
            21 => DeviceType::Macsec,
            22 => DeviceType::Dummy,
            _ => DeviceType::Unknown,
        };
        proof {
            lemma_device_type_roundtrip(r);
            if 0 <= device_type <= 22 {
                lemma_device_type_exists(device_type);
                let t = DeviceType::from_code_spec(device_type);
                assert(device_type_code(t) == device_type);
            }
        }
        r
    }
}

/// Every code from 0 to 22 is the code of a device kind.
proof fn lemma_device_type_exists(c: i64)
    requires
        0 <= c <= 22,
    ensures
        exists|t: DeviceType| device_type_code(t) == c,
{
    if c == 0 { assert(device_type_code(DeviceType::Unknown) == c); }
    else if c == 1 { assert(device_type_code(DeviceType::Ethernet) == c); }
    else if c == 2 { assert(device_type_code(DeviceType::WiFi) == c); }
    else if c == 3 { assert(device_type_code(DeviceType::Unused1) == c); }
    else if c == 4 { assert(device_type_code(DeviceType::Unused2) == c); }
    else if c == 5 { assert(device_type_code(DeviceType::Bt) == c); }
    else if c == 6 { assert(device_type_code(DeviceType::OlpcMesh) == c); }
    else if c == 7 { assert(device_type_code(DeviceType::Wimax) == c); }
    else if c == 8 { assert(device_type_code(DeviceType::Modem) == c); }
    else if c == 9 { assert(device_type_code(DeviceType::Infiniband) == c); }
    else if c == 10 { assert(device_type_code(DeviceType::Bond) == c); }
    else if c == 11 { assert(device_type_code(DeviceType::Vlan) == c); }
    else if c == 12 { assert(device_type_code(DeviceType::Adsl) == c); }
    else if c == 13 { assert(device_type_code(DeviceType::Bridge) == c); }
    else if c == 14 { assert(device_type_code(DeviceType::Generic) == c); }
    else if c == 15 { assert(device_type_code(DeviceType::Team) == c); }
    else if c == 16 { assert(device_type_code(DeviceType::Tun) == c); }
    else if c == 17 { assert(device_type_code(DeviceType::IpTunnel) == c); }
    else if c == 18 { assert(device_type_code(DeviceType::Macvlan) == c); }
    else if c == 19 { assert(device_type_code(DeviceType::Vxlan) == c); }
    else if c == 20 { assert(device_type_code(DeviceType::Veth) == c); }
    else if c == 21 { assert(device_type_code(DeviceType::Macsec) == c); }
    else { assert(device_type_code(DeviceType::Dummy) == c); }
}

/// Decoding a device kind's code gives that kind back.
pub proof fn lemma_device_type_roundtrip(t: DeviceType)
    ensures
        0 <= device_type_code(t) <= 22,
        forall|r: DeviceType| device_type_code(r) == device_type_code(t) ==> r == t,
{
}

} // verus!
