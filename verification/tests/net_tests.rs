use kolibri_pal::connection::{
    ConnectAction, IpAddr, Shutdown, SocketAddr, TcpListener, TcpStream, UdpSocket, lookup_host,
};
use kolibri_pal::duration::Duration;
use kolibri_pal::io_error::{ErrorKind, IoError};
use kolibri_pal::kos_error::NetworkError;
use kolibri_pal::net::{
    IpProtocol, Socket, SocketAddrFamily, SocketProtocol, SocketStream, SocketType, ipv4_socket_addr,
};

fn tcp_socket(sd: usize) -> Socket {
    Socket {
        sd,
        family: SocketAddrFamily::Inet4,
        stype: SocketType::Stream,
        proto: SocketProtocol::Ip(IpProtocol::Tcp),
    }
}

#[test]
fn protocol_numbers() {
    assert_eq!(SocketAddrFamily::Inet4.code(), 2);
    assert_eq!(SocketAddrFamily::Inet6.code(), 3);
    assert_eq!(SocketType::Stream.code(), 1);
    assert_eq!(SocketType::Dgram.code(), 2);
    assert_eq!(SocketProtocol::Ip(IpProtocol::Tcp).into_raw(), 6);
    assert_eq!(SocketProtocol::Ip(IpProtocol::Udp).into_raw(), 17);
    assert_eq!(SocketProtocol::Ip(IpProtocol::Raw).into_raw(), 255);
}

#[test]
fn socket_address_records() {
    let a = kolibri_pal::net::SocketAddr::new(SocketAddrFamily::Local, 7, 9);
    assert_eq!((a.family, a.ip, a.port, a.reserved), (SocketAddrFamily::Local, 7, 9, [0; 8]));
    let b = ipv4_socket_addr(&[127, 0, 0, 1], 80);
    assert_eq!(b.family, SocketAddrFamily::Inet4);
    assert_eq!(b.ip, 0x0100_007f);
    assert_eq!(b.port, 0x5000);
    assert_eq!(b.port, 80u16.to_be());
}

#[test]
fn socket_replies() {
    let s = Socket::open(SocketAddrFamily::Inet4, SocketType::Stream, SocketProtocol::Ip(IpProtocol::Tcp), 4, 0);
    assert_eq!(s, Ok(tcp_socket(4)));
    let e = Socket::open(SocketAddrFamily::Inet4, SocketType::Stream, SocketProtocol::Ip(IpProtocol::Tcp), 0xffff_ffff, 61);
    assert_eq!(e, Err(NetworkError::ConnectionRefused));
    let s = tcp_socket(4);
    assert_eq!(s.bind_ipv4(0, 0), Ok(()));
    assert_eq!(s.bind_ipv4(0xffff_ffff, 20), Err(NetworkError::AddressInUse));
    assert_eq!(s.socket_close(0, 0), Ok(()));
    assert_eq!(s.socket_close(0xffff_ffff, 9), Err(NetworkError::NotConnected));
    assert_eq!(tcp_socket(5).connect_ipv4(0xffff_ffff, 60), Err(NetworkError::TimedOut));
    let stream = tcp_socket(5).connect_ipv4(0, 0).unwrap();
    assert_eq!(stream, SocketStream { socket: tcp_socket(5) });
    assert_eq!(stream.send(12, 0), Ok(12));
    assert_eq!(stream.send(usize::MAX, 52), Err(NetworkError::ConnectionReset));
    assert_eq!(stream.recv(0, 0), Ok(0));
    assert_eq!(stream.recv(usize::MAX, 6), Err(NetworkError::WouldBlock));
}

#[test]
fn tcp_connect_refuses_ipv6() {
    let a = SocketAddr { ip: IpAddr::V6([0; 16]), port: 80 };
    assert_eq!(TcpStream::connect(&a), ConnectAction::Refused(IoError::Simple(ErrorKind::Unsupported)));
}

#[test]
fn tcp_connect_over_ipv4() {
    let a = SocketAddr { ip: IpAddr::V4([10, 0, 0, 2]), port: 8080 };
    match TcpStream::connect(&a) {
        ConnectAction::OpenSocket { family, stype, proto, octets, port } => {
            assert_eq!(family, SocketAddrFamily::Inet4);
            assert_eq!(stype, SocketType::Stream);
            assert_eq!(proto, SocketProtocol::Ip(IpProtocol::Tcp));
            assert_eq!(octets, [10, 0, 0, 2]);
            assert_eq!(port, 8080);
            let (socket, record) = TcpStream::connect_opened(octets, port, 3, 0);
            assert_eq!(socket, tcp_socket(3));
            assert_eq!(record.ip, 0x0200_000a);
            assert_eq!(record.port, 8080u16.to_be());
            let stream = TcpStream::connect_finished(socket, 0, 0).unwrap();
            assert_eq!(stream.read(7, 0), Ok(7));
            assert_eq!(stream.write(9, 0), Ok(9));
            assert!(!stream.is_read_vectored());
            assert!(!stream.is_write_vectored());
            let u = Err(IoError::UnsupportedPlatform);
            assert_eq!(stream.set_read_timeout(None), u);
            assert_eq!(stream.set_write_timeout(Some(Duration::from_secs(1))), u);
            assert_eq!(stream.read_timeout(), Err(IoError::UnsupportedPlatform));
            assert_eq!(stream.write_timeout(), Err(IoError::UnsupportedPlatform));
            let mut buf = [0u8; 4];
            assert_eq!(stream.peek(&mut buf), Err(IoError::UnsupportedPlatform));
            assert_eq!(stream.read_buf(), u);
            assert_eq!(stream.read_vectored(), Err(IoError::UnsupportedPlatform));
            assert_eq!(stream.write_vectored(), Err(IoError::UnsupportedPlatform));
            assert_eq!(stream.peer_addr(), Err(IoError::UnsupportedPlatform));
            assert_eq!(stream.socket_addr(), Err(IoError::UnsupportedPlatform));
            assert_eq!(stream.shutdown(Shutdown::Both), u);
            assert!(stream.duplicate().is_err());
            assert_eq!(stream.set_linger(None), u);
            assert_eq!(stream.linger(), Err(IoError::UnsupportedPlatform));
            assert_eq!(stream.set_keepalive(true), u);
            assert_eq!(stream.keepalive(), Err(IoError::UnsupportedPlatform));
            assert_eq!(stream.set_nodelay(true), u);
            assert_eq!(stream.nodelay(), Err(IoError::UnsupportedPlatform));
            assert_eq!(stream.set_ttl(64), u);
            assert_eq!(stream.ttl(), Err(IoError::UnsupportedPlatform));
            assert_eq!(stream.take_error(), Err(IoError::UnsupportedPlatform));
            assert_eq!(stream.set_nonblocking(true), u);
        },
        other => panic!("unexpected {:?}", other),
    }
}

#[test]
fn listeners_sockets_and_lookups_are_unsupported() {
    let a = SocketAddr { ip: IpAddr::V4([0, 0, 0, 0]), port: 1 };
    assert!(matches!(TcpStream::connect_timeout(&a, Duration::from_secs(1)), Err(IoError::UnsupportedPlatform)));
    assert!(matches!(TcpListener::bind(&a), Err(IoError::UnsupportedPlatform)));
    assert!(matches!(UdpSocket::bind(&a), Err(IoError::UnsupportedPlatform)));
    assert!(matches!(lookup_host("example.org", 80), Err(IoError::UnsupportedPlatform)));
}
