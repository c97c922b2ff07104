use udsplitter::fault::{other_error, Complaint, Fault};
use udsplitter::protocol::{connect_target, Address, SocketAddress, Target};

#[test]
fn the_unspecified_address_is_all_zero() {
    assert_eq!(
        Address::unspecified(),
        Address::SocketAddress(SocketAddress::V4 { ipv4: 0, port: 0 })
    );
}

#[test]
fn a_clone_says_the_same() {
    let host = Address::DomainAddress(b"example.org".to_vec(), 443);
    assert_eq!(host.clone(), host);
    let socket = Address::SocketAddress(SocketAddress::V6 {
        ipv6: 1,
        port: 80,
        flowinfo: 2,
        scope_id: 3,
    });
    assert_eq!(socket.clone(), socket);
}

#[test]
fn a_socket_address_is_its_own_target() {
    let socket = SocketAddress::V4 { ipv4: 0x7f000002, port: 1082 };
    assert_eq!(connect_target(&Address::SocketAddress(socket)), Target::Socket(socket));
}

#[test]
fn a_host_name_is_read_as_utf8() {
    let ascii = Address::DomainAddress(b"example.org".to_vec(), 443);
    assert_eq!(connect_target(&ascii), Target::Host("example.org".to_string(), 443));
    let accented = Address::DomainAddress(vec![0x62, 0xc3, 0xbc, 0x63, 0x68], 1);
    assert_eq!(connect_target(&accented), Target::Host("b\u{fc}ch".to_string(), 1));
    let empty = Address::DomainAddress(Vec::new(), 0);
    assert_eq!(connect_target(&empty), Target::Host(String::new(), 0));
}

#[test]
fn what_is_not_utf8_in_a_host_name_is_replaced() {
    let broken = Address::DomainAddress(vec![0x61, 0xff, 0x62], 80);
    assert_eq!(connect_target(&broken), Target::Host("a\u{fffd}b".to_string(), 80));
}

#[test]
fn complaints_read_as_they_should() {
    assert_eq!(Complaint::UnimplementedCommand.message(), "Unimplemented command");
    assert_eq!(
        Complaint::NoAcceptableMethod("127.0.0.2:1081".to_string()).message(),
        "No acceptable auth method from 127.0.0.2:1081"
    );
    assert_eq!(
        Complaint::UnsuccessfulReply("[::1]:1081".to_string()).message(),
        "Unsuccessful socks5 reply from [::1]:1081"
    );
    assert_eq!(Complaint::IdTimeout.message(), "Timeout while reading connection id");
    assert_eq!(Complaint::MismatchedConnection.message(), "Mismatched connection type");
    assert_eq!(Complaint::NothingLeft.message(), "No remote connection for the session");
}

#[test]
fn an_error_carries_its_text() {
    let error = other_error("out of order");
    assert_eq!(error.to_string(), "out of order");
    match error {
        socks5_proto::Error::Io(io) => assert_eq!(io.kind(), std::io::ErrorKind::Other),
        socks5_proto::Error::Protocol(_) => panic!("not an I/O error"),
    }
}

#[test]
fn faults_become_errors() {
    let own = Fault::<socks5_proto::Error>::Own(Complaint::IdTimeout).into_error();
    assert_eq!(own.to_string(), "Timeout while reading connection id");

    let outside = socks5_proto::ProtocolError::ProtocolVersion { version: 4 };
    let passed_on = Fault::Outside(socks5_proto::Error::from(outside)).into_error();
    assert!(matches!(
        passed_on,
        socks5_proto::Error::Protocol(socks5_proto::ProtocolError::ProtocolVersion { version: 4 })
    ));
}
