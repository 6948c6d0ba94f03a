use actix::actors::resolver::{
    Attempt, Connect, Connector, ConnectorError, Delay, Dial, IpAddress, Lookup, Resolve,
    Resolver, SocketAddress, TcpConnector,
};
use actix::fut::Async;
use std::collections::VecDeque;

fn parsed(addr: &str, port: u16) -> (String, u16) {
    match Resolver::parse(addr, port) {
        Ok((host, port)) => (host.to_string(), port),
        Err(_) => panic!("expected a host"),
    }
}

#[test]
fn messages_keep_what_they_were_given() {
    let msg = Resolve::host("example.org");
    assert_eq!(msg.name(), "example.org");
    assert_eq!(msg.port(), None);
    let msg = Resolve::host_and_port("example.org", 8080);
    assert_eq!(msg.name(), "example.org");
    assert_eq!(msg.port(), Some(8080));
    let msg = Connect::host("example.org:80");
    assert_eq!(msg.name(), "example.org:80");
    assert_eq!(msg.port(), None);
    let msg = Connect::host_and_port("example.org", 443);
    assert_eq!(msg.name(), "example.org");
    assert_eq!(msg.port(), Some(443));
}

#[test]
fn address_is_split_at_its_last_colon() {
    assert_eq!(parsed("localhost:5000", 0), ("localhost".to_string(), 5000));
    assert_eq!(parsed("a:b:80", 1), ("a:b".to_string(), 80));
    assert_eq!(parsed(":80", 1), ("".to_string(), 80));
    assert_eq!(parsed("host:", 7), ("host".to_string(), 7));
    assert_eq!(parsed("::1", 9), (":".to_string(), 1));
    assert_eq!(parsed("h\u{f6}st:81", 9), ("h\u{f6}st".to_string(), 81));
}

#[test]
fn address_without_colon_is_a_host() {
    assert_eq!(parsed("localhost", 0), ("localhost".to_string(), 0));
    assert_eq!(parsed("example.org", 8080), ("example.org".to_string(), 8080));
}

#[test]
fn port_that_cannot_be_read_gives_way_to_the_default() {
    assert_eq!(parsed("host:http", 81), ("host".to_string(), 81));
    assert_eq!(parsed("host:65536", 81), ("host".to_string(), 81));
    assert_eq!(parsed("host:99999999999999999999", 81), ("host".to_string(), 81));
    assert_eq!(parsed("host:-1", 81), ("host".to_string(), 81));
    assert_eq!(parsed("host:+", 81), ("host".to_string(), 81));
    assert_eq!(parsed("host: 80", 81), ("host".to_string(), 81));
    assert_eq!(parsed("host:8o", 81), ("host".to_string(), 81));
    assert_eq!(parsed("host:\u{663}", 81), ("host".to_string(), 81));
}

#[test]
fn port_is_read_as_the_standard_library_reads_it() {
    for text in ["0", "80", "+80", "0080", "65535", "000065535", "+0", "65536", "", "+", "-0", "8 ", "１"] {
        let addr = format!("h:{}", text);
        let expected = text.parse::<u16>().unwrap_or(4242);
        assert_eq!(parsed(&addr, 4242), ("h".to_string(), expected), "port text {:?}", text);
    }
}

#[test]
fn empty_address_is_invalid() {
    match Resolver::parse("", 80) {
        Err(ConnectorError::InvalidInput(reason)) => assert_eq!(reason, "invalid socket address"),
        _ => panic!("expected InvalidInput"),
    }
    let mut resolver = Resolver::new("", 80, None);
    assert_eq!(resolver.lookup(), None);
    assert!(resolver.pending());
    match resolver.poll(Lookup::NotReady) {
        Err(ConnectorError::InvalidInput(reason)) => assert_eq!(reason, "invalid socket address"),
        _ => panic!("expected InvalidInput"),
    }
    assert!(!resolver.pending());
}

#[test]
fn socket_address_needs_no_lookup() {
    let literal = SocketAddress::new(IpAddress::V4(0x7f00_0001), 8080);
    let mut resolver = Resolver::new("127.0.0.1:8080", 0, Some(literal));
    assert_eq!(resolver.lookup(), None);
    assert!(resolver.pending());
    match resolver.poll(Lookup::NotReady) {
        Ok(Async::Ready(addrs)) => assert_eq!(addrs, VecDeque::from(vec![literal])),
        _ => panic!("expected the address"),
    }
    assert!(!resolver.pending());
}

#[test]
fn lookup_gives_every_address_the_port() {
    let mut resolver = Resolver::new("example.org:8443", 80, None);
    assert_eq!(resolver.lookup(), Some("example.org"));
    assert!(matches!(resolver.poll(Lookup::NotReady), Ok(Async::NotReady)));
    assert_eq!(resolver.lookup(), Some("example.org"));
    let ips = vec![IpAddress::V4(0x5db8_d822), IpAddress::V6(1), IpAddress::V4(0x0a00_0001)];
    match resolver.poll(Lookup::Ready(ips.clone())) {
        Ok(Async::Ready(addrs)) => {
            assert_eq!(addrs.len(), 3);
            for (addr, ip) in addrs.iter().zip(ips.iter()) {
                assert_eq!(*addr, SocketAddress { ip: *ip, port: 8443, flowinfo: 0, scope_id: 0 });
            }
        }
        _ => panic!("expected addresses"),
    }
    assert_eq!(resolver.lookup(), None);
    assert!(!resolver.pending());
}

#[test]
fn lookup_without_address_is_an_error() {
    let mut resolver = Resolver::new("example.org", 80, None);
    match resolver.poll(Lookup::Ready(Vec::new())) {
        Err(ConnectorError::Resolver(reason)) => {
            assert_eq!(reason, "Expect at least one A dns record")
        }
        _ => panic!("expected a resolver error"),
    }
    assert!(!resolver.pending());
}

#[test]
fn failed_lookup_is_an_error() {
    let mut resolver = Resolver::new("example.org", 80, None);
    match resolver.poll(Lookup::Failed("timed out".to_string())) {
        Err(ConnectorError::Resolver(reason)) => assert_eq!(reason, "timed out"),
        _ => panic!("expected a resolver error"),
    }
}

#[test]
fn message_without_port_means_port_zero() {
    let mut resolver = Connector::resolve(Resolve::host("example.org"), None);
    match resolver.poll(Lookup::Ready(vec![IpAddress::V6(1)])) {
        Ok(Async::Ready(addrs)) => assert_eq!(addrs[0].port, 0),
        _ => panic!("expected addresses"),
    }
    let mut resolver = Connector::connect(Connect::host_and_port("example.org", 22), None);
    match resolver.poll(Lookup::Ready(vec![IpAddress::V6(1)])) {
        Ok(Async::Ready(addrs)) => assert_eq!(addrs[0].port, 22),
        _ => panic!("expected addresses"),
    }
    // a port in the host goes before the one in the message
    let mut resolver = Connector::connect(Connect::host_and_port("example.org:23", 22), None);
    match resolver.poll(Lookup::Ready(vec![IpAddress::V6(1)])) {
        Ok(Async::Ready(addrs)) => assert_eq!(addrs[0].port, 23),
        _ => panic!("expected addresses"),
    }
}

#[test]
fn errors_describe_themselves() {
    assert_eq!(
        ConnectorError::Resolver("no such host".to_string()).describe(),
        "Failed resolving hostname: no such host"
    );
    assert_eq!(
        ConnectorError::InvalidInput("invalid socket address").describe(),
        "Invalid input: invalid socket address"
    );
    assert_eq!(ConnectorError::Timeout.describe(), "Timeout out while establishing connection");
    let err = std::io::Error::new(std::io::ErrorKind::Other, "refused");
    assert_eq!(ConnectorError::IoError(err).describe(), "refused");
}

fn addresses(n: u16) -> VecDeque<SocketAddress> {
    (1..=n).map(|i| SocketAddress::new(IpAddress::V4(i as u32), i)).collect()
}

#[test]
fn connector_gives_up_after_one_second_by_default() {
    let connector = TcpConnector::new(addresses(1));
    assert_eq!(connector.timeout(), Delay { secs: 1, nanos: 0 });
    assert!(!connector.connecting());
    assert_eq!(connector.remaining(), 1);
    let connector = TcpConnector::with_timeout(addresses(2), Delay { secs: 0, nanos: 500 });
    assert_eq!(connector.timeout(), Delay { secs: 0, nanos: 500 });
    assert_eq!(connector.remaining(), 2);
}

#[test]
fn connector_tries_the_addresses_in_order() {
    let mut connector = TcpConnector::new(addresses(3));
    match connector.poll::<u8>(false, Attempt::NotReady) {
        Ok(Dial::Connect(addr)) => assert_eq!(addr.port, 1),
        _ => panic!("expected the first attempt"),
    }
    assert!(connector.connecting());
    assert!(matches!(connector.poll::<u8>(false, Attempt::NotReady), Ok(Dial::NotReady)));
    let refused = std::io::Error::new(std::io::ErrorKind::ConnectionRefused, "refused");
    match connector.poll::<u8>(false, Attempt::Failed(refused)) {
        Ok(Dial::Connect(addr)) => assert_eq!(addr.port, 2),
        _ => panic!("expected the second attempt"),
    }
    assert_eq!(connector.remaining(), 1);
    match connector.poll(false, Attempt::Connected(42u8)) {
        Ok(Dial::Ready(stream)) => assert_eq!(stream, 42),
        _ => panic!("expected the connection"),
    }
}

#[test]
fn connector_fails_with_the_error_of_the_last_address() {
    let mut connector = TcpConnector::new(addresses(2));
    assert!(matches!(connector.poll::<u8>(false, Attempt::NotReady), Ok(Dial::Connect(_))));
    let first = std::io::Error::new(std::io::ErrorKind::ConnectionRefused, "first");
    assert!(matches!(connector.poll::<u8>(false, Attempt::Failed(first)), Ok(Dial::Connect(_))));
    let last = std::io::Error::new(std::io::ErrorKind::ConnectionRefused, "last");
    match connector.poll::<u8>(false, Attempt::Failed(last)) {
        Err(ConnectorError::IoError(err)) => assert_eq!(err.to_string(), "last"),
        _ => panic!("expected the last error"),
    }
}

#[test]
fn connector_gives_up_when_the_time_is_up() {
    let mut connector = TcpConnector::new(addresses(2));
    assert!(matches!(connector.poll::<u8>(false, Attempt::NotReady), Ok(Dial::Connect(_))));
    assert!(matches!(
        connector.poll::<u8>(true, Attempt::NotReady),
        Err(ConnectorError::Timeout)
    ));
    // even a connection that stands is not handed out after the time
    assert!(matches!(
        connector.poll(true, Attempt::Connected(1u8)),
        Err(ConnectorError::Timeout)
    ));
    assert_eq!(connector.remaining(), 1);
}
