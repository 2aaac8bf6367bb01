//! The decisions of mapping a port on the home gateway, with NAT-PMP/PCP or
//! with UPnP IGD, and of removing the mapping again.
use vstd::prelude::*;
use vstd::string::*;

verus! {

/// The transport protocol of a port mapping.
#[derive(Clone, Copy, Debug, PartialEq, Eq, Structural)]
pub enum IpProto {
    Udp,
    Tcp,
}

impl IpProto {
    /// The lower-case name of the protocol, as mapping listings show it.
    pub fn label(&self) -> (s: &'static str)
        ensures
            *self == IpProto::Tcp ==> s@ == "tcp"@,
            *self == IpProto::Udp ==> s@ == "udp"@,
    {
        match self {
            IpProto::Tcp => "tcp",
            IpProto::Udp => "udp",
        }
    }
}

/// An IP address: IPv4 as the 32-bit number of its four octets, big-endian
/// (as `u32::from(Ipv4Addr)`), IPv6 as its 128-bit number.
#[derive(Clone, Copy, Debug, PartialEq, Eq, Structural)]
pub enum IpAddress {
    V4(u32),
    V6(u128),
}

/// An IPv4 socket address.
#[derive(Clone, Copy, Debug, PartialEq, Eq, Structural)]
pub struct SocketV4 {
    pub ip: u32,
    pub port: u16,
}

/// The local port that the TURN server listens on and that gets mapped.
pub const HOST_PORT: u16 = 9317;

/// The lease of an IGD mapping, in seconds: one hour.
pub const IGD_LEASE_DURATION: u32 = 3600;

/// Why a step of mapping a port failed.
#[derive(Clone, Debug, PartialEq, Eq)]
pub enum MapError {
    /// The machine has no local address.
    NoLocalAddress,
    /// The local address is an IPv6 address.
    LocalAddressIpv6,
    /// The default gateway has no address.
    NoGatewayAddress,
    /// The local port is 0.
    ZeroLocalPort,
    /// A gateway protocol failed, with its message.
    Gateway(String),
}

/// The message of an error.
pub open spec fn spec_map_error_message(e: MapError) -> Seq<char> {
    match e {
        MapError::NoLocalAddress => "Could not determine a local address"@,
        MapError::LocalAddressIpv6 => "expected local address to be ipv4, not ipv6"@,
        MapError::NoGatewayAddress => "Could not find an ip address on default gateway"@,
        MapError::ZeroLocalPort => "local port must not be zero"@,
        MapError::Gateway(m) => m@,
    }
}

impl MapError {
    /// The message of the error.
    pub fn message(&self) -> (m: String)
        ensures
            m@ == spec_map_error_message(*self),
    {
        match self {
            MapError::NoLocalAddress => String::from_str("Could not determine a local address"),
            MapError::LocalAddressIpv6 => String::from_str(
                "expected local address to be ipv4, not ipv6",
            ),
            MapError::NoGatewayAddress => String::from_str(
                "Could not find an ip address on default gateway",
            ),
            MapError::ZeroLocalPort => String::from_str("local port must not be zero"),
            MapError::Gateway(m) => m.clone(),
        }
    }
}

/// The local IPv4 address that is mapped: there must be a local address, and
/// it must be an IPv4 address.
pub fn local_ipv4(addr: Option<IpAddress>) -> (r: Result<u32, MapError>)
    ensures
        addr is None ==> r == Err::<u32, MapError>(MapError::NoLocalAddress),
        addr matches Some(IpAddress::V6(_)) ==> r == Err::<u32, MapError>(
            MapError::LocalAddressIpv6,
        ),
        addr matches Some(IpAddress::V4(ip)) ==> r == Ok::<u32, MapError>(ip),
{
    match addr {
        None => Err(MapError::NoLocalAddress),
        Some(IpAddress::V6(_)) => Err(MapError::LocalAddressIpv6),
        Some(IpAddress::V4(ip)) => Ok(ip),
    }
}

/// The gateway address that NAT-PMP/PCP talks to: the gateway's first IPv4
/// address, else its first IPv6 address.
pub fn default_gateway_address(v4: &[u32], v6: &[u128]) -> (r: Result<IpAddress, MapError>)
    ensures
        v4@.len() > 0 ==> r == Ok::<IpAddress, MapError>(IpAddress::V4(v4@[0])),
        v4@.len() == 0 && v6@.len() > 0 ==> r == Ok::<IpAddress, MapError>(IpAddress::V6(v6@[0])),
        v4@.len() == 0 && v6@.len() == 0 ==> r == Err::<IpAddress, MapError>(
            MapError::NoGatewayAddress,
        ),
{
    if v4.len() > 0 {
        Ok(IpAddress::V4(v4[0]))
    } else if v6.len() > 0 {
        Ok(IpAddress::V6(v6[0]))
    } else {
        Err(MapError::NoGatewayAddress)
    }
}

/// The gateway address of the same family as the local address where the
/// gateway has one, else of the other family.
pub fn find_gateway_address(local: IpAddress, v4: &[u32], v6: &[u128]) -> (r: Result<
    IpAddress,
    MapError,
>)
    ensures
        local is V4 ==> r == (if v4@.len() > 0 {
            Ok::<IpAddress, MapError>(IpAddress::V4(v4@[0]))
        } else if v6@.len() > 0 {
            Ok(IpAddress::V6(v6@[0]))
        } else {
            Err(MapError::NoGatewayAddress)
        }),
        local is V6 ==> r == (if v6@.len() > 0 {
            Ok::<IpAddress, MapError>(IpAddress::V6(v6@[0]))
        } else if v4@.len() > 0 {
            Ok(IpAddress::V4(v4@[0]))
        } else {
            Err(MapError::NoGatewayAddress)
        }),
{
    match local {
        IpAddress::V4(_) => default_gateway_address(v4, v6),
        IpAddress::V6(_) => {
            if v6.len() > 0 {
                Ok(IpAddress::V6(v6[0]))
            } else if v4.len() > 0 {
                Ok(IpAddress::V4(v4[0]))
            } else {
                Err(MapError::NoGatewayAddress)
            }
        },
    }
}

/// What a NAT-PMP/PCP mapping is requested with.
#[derive(Clone, Copy, Debug, PartialEq, Eq, Structural)]
pub struct PcpRequest {
    pub client: IpAddress,
    pub protocol: IpProto,
    pub internal_port: u16,
}

/// The NAT-PMP/PCP request for mapping the local socket `local`; the port
/// must not be 0.
pub fn pcp_request(local: SocketV4, proto: IpProto) -> (r: Result<PcpRequest, MapError>)
    ensures
        local.port == 0 ==> r == Err::<PcpRequest, MapError>(MapError::ZeroLocalPort),
        local.port != 0 ==> r == Ok::<PcpRequest, MapError>(
            PcpRequest { client: IpAddress::V4(local.ip), protocol: proto, internal_port: local.port },
        ),
{
    if local.port == 0 {
        Err(MapError::ZeroLocalPort)
    } else {
        Ok(PcpRequest { client: IpAddress::V4(local.ip), protocol: proto, internal_port: local.port })
    }
}

/// What a UPnP IGD mapping is requested with.
#[derive(Clone, Copy, Debug, PartialEq, Eq, Structural)]
pub struct IgdRequest {
    pub protocol: IpProto,
    pub local: SocketV4,
    pub lease_duration: u32,
}

/// The IGD request for mapping the local socket `local` on any external port,
/// for an hour.
pub fn igd_request(local: SocketV4, proto: IpProto) -> (r: IgdRequest)
    ensures
        r == (IgdRequest { protocol: proto, local, lease_duration: IGD_LEASE_DURATION }),
{
    IgdRequest { protocol: proto, local, lease_duration: IGD_LEASE_DURATION }
}

/// The description that IGD mappings are added with.
pub fn igd_description() -> (s: &'static str)
    ensures
        s@ == "turn-server"@,
{
    "turn-server"
}

/// The external socket address of a mapping.
pub fn external_socket(external_address: u32, external_port: u16) -> (s: SocketV4)
    ensures
        s == (SocketV4 { ip: external_address, port: external_port }),
{
    SocketV4 { ip: external_address, port: external_port }
}

} // verus!
