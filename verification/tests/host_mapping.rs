use watchparty::mapping::{
    settle_first, settle_second, Attempt, DropAnswer, DropStep, MappedPort, MappedPortAutoError,
};
use watchparty::portmap::{
    default_gateway_address, external_socket, find_gateway_address, igd_description, igd_request,
    local_ipv4, pcp_request, IgdRequest, IpAddress, IpProto, MapError, PcpRequest, SocketV4,
    HOST_PORT, IGD_LEASE_DURATION,
};
use watchparty::turn::{default_turn_config, log_level, LogLevel, Transport, TurnInterface, API_PORT, LOCALHOST_IPV4};

type Port = MappedPort<&'static str, ()>;

#[test]
fn local_address_must_be_ipv4() {
    assert_eq!(local_ipv4(None), Err(MapError::NoLocalAddress));
    assert_eq!(local_ipv4(Some(IpAddress::V6(1))), Err(MapError::LocalAddressIpv6));
    assert_eq!(local_ipv4(Some(IpAddress::V4(0xc0a80102))), Ok(0xc0a80102));
}

#[test]
fn error_messages() {
    assert_eq!(MapError::NoLocalAddress.message(), "Could not determine a local address");
    assert_eq!(MapError::LocalAddressIpv6.message(), "expected local address to be ipv4, not ipv6");
    assert_eq!(MapError::NoGatewayAddress.message(), "Could not find an ip address on default gateway");
    assert_eq!(MapError::ZeroLocalPort.message(), "local port must not be zero");
    assert_eq!(MapError::Gateway("timed out".to_string()).message(), "timed out");
}

#[test]
fn auto_error_message_lists_both() {
    let e = MappedPortAutoError(MapError::Gateway("igd: no gateway".to_string()), MapError::NoGatewayAddress);
    assert_eq!(
        e.message(),
        "failed to map port on gateway with either NAT-PMP/PCP or UPnP IGD;\n* 1) igd: no gateway;\n* 2) Could not find an ip address on default gateway;\n"
    );
}

#[test]
fn gateway_prefers_ipv4() {
    assert_eq!(default_gateway_address(&[1, 2], &[3]), Ok(IpAddress::V4(1)));
    assert_eq!(default_gateway_address(&[], &[3, 4]), Ok(IpAddress::V6(3)));
    assert_eq!(default_gateway_address(&[], &[]), Err(MapError::NoGatewayAddress));
}

#[test]
fn gateway_follows_local_family() {
    assert_eq!(find_gateway_address(IpAddress::V4(9), &[1], &[3]), Ok(IpAddress::V4(1)));
    assert_eq!(find_gateway_address(IpAddress::V6(9), &[1], &[3]), Ok(IpAddress::V6(3)));
    assert_eq!(find_gateway_address(IpAddress::V6(9), &[1], &[]), Ok(IpAddress::V4(1)));
    assert_eq!(find_gateway_address(IpAddress::V4(9), &[], &[]), Err(MapError::NoGatewayAddress));
}

#[test]
fn pcp_request_needs_nonzero_port() {
    let local = SocketV4 { ip: 0x0a000002, port: HOST_PORT };
    assert_eq!(
        pcp_request(local, IpProto::Tcp),
        Ok(PcpRequest { client: IpAddress::V4(0x0a000002), protocol: IpProto::Tcp, internal_port: 9317 })
    );
    assert_eq!(pcp_request(SocketV4 { ip: 1, port: 0 }, IpProto::Udp), Err(MapError::ZeroLocalPort));
}

#[test]
fn igd_request_leases_an_hour() {
    let local = SocketV4 { ip: 5, port: 80 };
    assert_eq!(igd_request(local, IpProto::Udp), IgdRequest { protocol: IpProto::Udp, local, lease_duration: 3600 });
    assert_eq!(IGD_LEASE_DURATION, 60 * 60);
    assert_eq!(igd_description(), "turn-server");
    assert_eq!(external_socket(7, 65000), SocketV4 { ip: 7, port: 65000 });
}

#[test]
fn pcp_drop_success() {
    let mut m: Port = MappedPort::Pcp(Some("mapping"));
    assert!(!m.is_dropped());
    match m.begin_drop() {
        DropStep::RemovePcp(p) => assert_eq!(p, "mapping"),
        _ => panic!("expected a NAT-PMP/PCP removal"),
    }
    m.finish_drop(DropAnswer::PcpRemoved);
    assert!(m.is_dropped());
    assert!(matches!(m.begin_drop(), DropStep::Done));
}

#[test]
fn pcp_drop_failure_restores_mapping() {
    let mut m: Port = MappedPort::Pcp(Some("mapping"));
    let p = match m.begin_drop() {
        DropStep::RemovePcp(p) => p,
        _ => panic!("expected a NAT-PMP/PCP removal"),
    };
    m.finish_drop(DropAnswer::PcpFailed(p));
    assert!(!m.is_dropped());
    assert!(matches!(m, MappedPort::Pcp(Some("mapping"))));
}

#[test]
fn igd_drop_success_and_failure() {
    let mut m: Port = MappedPort::Igd { gateway: (), protocol: IpProto::Tcp, external_port: 40000 };
    match m.begin_drop() {
        DropStep::RemoveIgd { protocol, external_port } => {
            assert_eq!(protocol, IpProto::Tcp);
            assert_eq!(external_port, 40000);
        }
        _ => panic!("expected an IGD removal"),
    }
    m.finish_drop(DropAnswer::IgdFailed);
    assert!(!m.is_dropped());
    assert!(matches!(m.begin_drop(), DropStep::RemoveIgd { .. }));
    m.finish_drop(DropAnswer::IgdRemoved);
    assert!(m.is_dropped());
    assert!(matches!(m, MappedPort::Igd { external_port: 0, .. }));
    assert!(matches!(m.begin_drop(), DropStep::Done));
}

#[test]
fn auto_map_prefers_first_success() {
    assert_eq!(settle_first(Attempt::Mapped(1)), Ok(1));
    assert_eq!(settle_first::<i32>(Attempt::Failed(MapError::ZeroLocalPort)), Err(MapError::ZeroLocalPort));
    assert_eq!(settle_second(MapError::NoGatewayAddress, Attempt::Mapped(2)), Ok(2));
    assert_eq!(
        settle_second::<i32>(MapError::NoGatewayAddress, Attempt::Failed(MapError::Gateway("x".to_string()))),
        Err(MappedPortAutoError(MapError::NoGatewayAddress, MapError::Gateway("x".to_string())))
    );
}

#[test]
fn turn_config_defaults() {
    let external = SocketV4 { ip: 0x01020304, port: 50000 };
    let c = default_turn_config(HOST_PORT, external);
    assert_eq!(c.realm, "localhost");
    assert_eq!(c.interfaces, vec![TurnInterface { transport: Transport::Tcp, bind: SocketV4 { ip: 0, port: 9317 }, external }]);
    assert_eq!(c.api_bind, SocketV4 { ip: 0x7f000001, port: 3003 });
    assert_eq!((LOCALHOST_IPV4, API_PORT), (0x7f000001, 3003));
    assert_eq!(c.log_level, LogLevel::Trace);
    assert_eq!(log_level(), LogLevel::Trace);
    assert!(c.static_credentials.is_empty());
    assert_eq!(c.static_auth_secret.as_deref(), Some("some_password_123"));
}

#[test]
fn protocol_labels() {
    assert_eq!(IpProto::Tcp.label(), "tcp");
    assert_eq!(IpProto::Udp.label(), "udp");
}
