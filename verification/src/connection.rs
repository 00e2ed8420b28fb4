//! TCP and UDP sockets of the standard library on this platform: only outgoing TCP
//! connections exist; listeners, UDP sockets and name lookup cannot be made.
use vstd::prelude::*;
use crate::common::{Never, is_unsupported, unsupported};
use crate::duration::Duration;
use crate::io_error::{ErrorKind, IoError};
use crate::net::{
    IpProtocol, Socket, SocketAddrFamily, SocketProtocol, SocketStream, SocketType, failed,
    ipv4_from_octets, ipv4_socket_addr, port_to_network, transfer_failed,
};

verus! {

/// An IP address.
#[derive(Debug, Clone, Copy, PartialEq, Eq)]
pub enum IpAddr {
    V4([u8; 4]),
    V6([u8; 16]),
}

/// An IP address and a port.
#[derive(Debug, Clone, Copy, PartialEq, Eq)]
pub struct SocketAddr {
    pub ip: IpAddr,
    pub port: u16,
}

/// Which halves of a connection to shut down.
#[derive(Debug, Clone, Copy, PartialEq, Eq, Structural)]
pub enum Shutdown {
    Read,
    Write,
    Both,
}

/// What connecting asks for first: nothing, when the address is refused, or a socket.
#[derive(Debug, PartialEq, Eq)]
pub enum ConnectAction {
    /// Connecting ends with this error.
    Refused(IoError),
    /// Open a socket of this family, type and protocol, then call
    /// `TcpStream::connect_opened` with the reply.
    OpenSocket { family: SocketAddrFamily, stype: SocketType, proto: SocketProtocol, octets: [u8; 4], port: u16 },
}

/// A connected TCP stream.
#[derive(Debug, PartialEq, Eq)]
pub struct TcpStream {
    pub stream: SocketStream,
}

impl TcpStream {
    /// Starts connecting to an address: IPv6 is refused as unsupported; for IPv4 a TCP
    /// stream socket is to be opened.
    pub fn connect(addr: &SocketAddr) -> (a: ConnectAction)
        ensures
            addr.ip is V6 ==> a == ConnectAction::Refused(IoError::Simple(ErrorKind::Unsupported)),
            addr.ip matches IpAddr::V4(o) ==> a == (ConnectAction::OpenSocket {
                family: SocketAddrFamily::Inet4,
                stype: SocketType::Stream,
                proto: SocketProtocol::Ip(IpProtocol::Tcp),
                octets: o,
                port: addr.port,
            }),
    {
        match addr.ip {
            IpAddr::V4(octets) => ConnectAction::OpenSocket {
                family: SocketAddrFamily::Inet4,
                stype: SocketType::Stream,
                proto: SocketProtocol::Ip(IpProtocol::Tcp),
                octets,
                port: addr.port,
            },
            IpAddr::V6(_) => ConnectAction::Refused(IoError::Simple(ErrorKind::Unsupported)),
        }
    }

    /// The socket that the "open socket" reply describes, and the address record to connect
    /// it to. A failed reply is left out: its network error has no I/O error kind, and the
    /// conversion fails.
    pub fn connect_opened(octets: [u8; 4], port: u16, socket_nr: usize, error: usize) -> (r: (Socket, crate::net::SocketAddr))
        requires
            !failed(socket_nr),
        ensures
            r.0 == (Socket { sd: socket_nr, family: SocketAddrFamily::Inet4, stype: SocketType::Stream, proto: SocketProtocol::Ip(IpProtocol::Tcp) }),
            r.1.family == SocketAddrFamily::Inet4,
            r.1.ip == ipv4_from_octets(octets@),
            r.1.port == port_to_network(port),
    {
        let socket = Socket::open(
            SocketAddrFamily::Inet4,
            SocketType::Stream,
            SocketProtocol::Ip(IpProtocol::Tcp),
            socket_nr,
            error,
        ).unwrap();
        (socket, ipv4_socket_addr(&octets, port))
    }

    /// The stream that the "connect" reply yields. A failed reply is left out, as above.
    pub fn connect_finished(socket: Socket, is_error: usize, error: usize) -> (r: Result<TcpStream, IoError>)
        requires
            !failed(is_error),
        ensures
            r == Ok::<TcpStream, IoError>(TcpStream { stream: SocketStream { socket } }),
    {
        let stream = socket.connect_ipv4(is_error, error).unwrap();
        Ok(TcpStream { stream })
    }

    /// The bytes received, from the reply of a receive. A failed reply is left out, as above.
    pub fn read(&self, bytes_copied: usize, error: usize) -> (r: Result<usize, IoError>)
        requires
            !transfer_failed(bytes_copied),
        ensures
            r == Ok::<usize, IoError>(bytes_copied),
    {
        Ok(self.stream.recv(bytes_copied, error).unwrap())
    }

    /// The bytes sent, from the reply of a send. A failed reply is left out, as above.
    pub fn write(&self, bytes_copied: usize, error: usize) -> (r: Result<usize, IoError>)
        requires
            !transfer_failed(bytes_copied),
        ensures
            r == Ok::<usize, IoError>(bytes_copied),
    {
        Ok(self.stream.send(bytes_copied, error).unwrap())
    }

    pub fn is_read_vectored(&self) -> (b: bool)
        ensures
            !b,
    {
        false
    }

    pub fn is_write_vectored(&self) -> (b: bool)
        ensures
            !b,
    {
        false
    }

    pub fn connect_timeout(_addr: &SocketAddr, _timeout: Duration) -> (r: Result<TcpStream, IoError>)
        ensures
            is_unsupported(r),
    {
        unsupported()
    }

    pub fn set_read_timeout(&self, _dur: Option<Duration>) -> (r: Result<(), IoError>)
        ensures
            is_unsupported(r),
    {
        unsupported()
    }

    pub fn set_write_timeout(&self, _dur: Option<Duration>) -> (r: Result<(), IoError>)
        ensures
            is_unsupported(r),
    {
        unsupported()
    }

    pub fn read_timeout(&self) -> (r: Result<Option<Duration>, IoError>)
        ensures
            is_unsupported(r),
    {
        unsupported()
    }

    pub fn write_timeout(&self) -> (r: Result<Option<Duration>, IoError>)
        ensures
            is_unsupported(r),
    {
        unsupported()
    }

    pub fn peek(&self, _buf: &mut [u8]) -> (r: Result<usize, IoError>)
        ensures
            is_unsupported(r),
    {
        unsupported()
    }

    pub fn read_buf(&self) -> (r: Result<(), IoError>)
        ensures
            is_unsupported(r),
    {
        unsupported()
    }

    pub fn read_vectored(&self) -> (r: Result<usize, IoError>)
        ensures
            is_unsupported(r),
    {
        unsupported()
    }

    pub fn write_vectored(&self) -> (r: Result<usize, IoError>)
        ensures
            is_unsupported(r),
    {
        unsupported()
    }

    pub fn peer_addr(&self) -> (r: Result<SocketAddr, IoError>)
        ensures
            is_unsupported(r),
    {
        unsupported()
    }

    pub fn socket_addr(&self) -> (r: Result<SocketAddr, IoError>)
        ensures
            is_unsupported(r),
    {
        unsupported()
    }

    pub fn shutdown(&self, _how: Shutdown) -> (r: Result<(), IoError>)
        ensures
            is_unsupported(r),
    {
        unsupported()
    }

    pub fn duplicate(&self) -> (r: Result<TcpStream, IoError>)
        ensures
            is_unsupported(r),
    {
        unsupported()
    }

    pub fn set_linger(&self, _linger: Option<Duration>) -> (r: Result<(), IoError>)
        ensures
            is_unsupported(r),
    {
        unsupported()
    }

    pub fn linger(&self) -> (r: Result<Option<Duration>, IoError>)
        ensures
            is_unsupported(r),
    {
        unsupported()
    }

    pub fn set_keepalive(&self, _keepalive: bool) -> (r: Result<(), IoError>)
        ensures
            is_unsupported(r),
    {
        unsupported()
    }

    pub fn keepalive(&self) -> (r: Result<bool, IoError>)
        ensures
            is_unsupported(r),
    {
        unsupported()
    }

    pub fn set_nodelay(&self, _nodelay: bool) -> (r: Result<(), IoError>)
        ensures
            is_unsupported(r),
    {
        unsupported()
    }

    pub fn nodelay(&self) -> (r: Result<bool, IoError>)
        ensures
            is_unsupported(r),
    {
        unsupported()
    }

    pub fn set_ttl(&self, _ttl: u32) -> (r: Result<(), IoError>)
        ensures
            is_unsupported(r),
    {
        unsupported()
    }

    pub fn ttl(&self) -> (r: Result<u32, IoError>)
        ensures
            is_unsupported(r),
    {
        unsupported()
    }

    pub fn take_error(&self) -> (r: Result<Option<IoError>, IoError>)
        ensures
            is_unsupported(r),
    {
        unsupported()
    }

    pub fn set_nonblocking(&self, _nonblocking: bool) -> (r: Result<(), IoError>)
        ensures
            is_unsupported(r),
    {
        unsupported()
    }
}

/// Listening sockets cannot be made on this platform: no value of this type exists.
pub struct TcpListener(pub Never);

impl TcpListener {

    pub fn bind(_addr: &SocketAddr) -> (r: Result<TcpListener, IoError>)
        ensures
            is_unsupported(r),
    {
        unsupported()
    }

    /// Never called: no value of this type exists.
    pub fn socket_addr(&self) -> Result<SocketAddr, IoError> {
        proof { use_type_invariant(&self.0); }
        unsupported()
    }

    /// Never called: no value of this type exists.
    pub fn accept(&self) -> Result<(TcpStream, SocketAddr), IoError> {
        proof { use_type_invariant(&self.0); }
        unsupported()
    }

    /// Never called: no value of this type exists.
    pub fn duplicate(&self) -> Result<TcpListener, IoError> {
        proof { use_type_invariant(&self.0); }
        unsupported()
    }

    /// Never called: no value of this type exists.
    pub fn set_ttl(&self, _ttl: u32) -> Result<(), IoError> {
        proof { use_type_invariant(&self.0); }
        unsupported()
    }

    /// Never called: no value of this type exists.
    pub fn ttl(&self) -> Result<u32, IoError> {
        proof { use_type_invariant(&self.0); }
        unsupported()
    }

    /// Never called: no value of this type exists.
    pub fn set_only_v6(&self, _only_v6: bool) -> Result<(), IoError> {
        proof { use_type_invariant(&self.0); }
        unsupported()
    }

    /// Never called: no value of this type exists.
    pub fn only_v6(&self) -> Result<bool, IoError> {
        proof { use_type_invariant(&self.0); }
        unsupported()
    }

    /// Never called: no value of this type exists.
    pub fn take_error(&self) -> Result<Option<IoError>, IoError> {
        proof { use_type_invariant(&self.0); }
        unsupported()
    }

    /// Never called: no value of this type exists.
    pub fn set_nonblocking(&self, _nonblocking: bool) -> Result<(), IoError> {
        proof { use_type_invariant(&self.0); }
        unsupported()
    }
}

/// UDP sockets cannot be made on this platform: no value of this type exists.
pub struct UdpSocket(pub Never);

impl UdpSocket {

    pub fn bind(_addr: &SocketAddr) -> (r: Result<UdpSocket, IoError>)
        ensures
            is_unsupported(r),
    {
        unsupported()
    }

    /// Never called: no value of this type exists.
    pub fn peer_addr(&self) -> Result<SocketAddr, IoError> {
        proof { use_type_invariant(&self.0); }
        unsupported()
    }

    /// Never called: no value of this type exists.
    pub fn socket_addr(&self) -> Result<SocketAddr, IoError> {
        proof { use_type_invariant(&self.0); }
        unsupported()
    }

    /// Never called: no value of this type exists.
    pub fn recv_from(&self, _buf: &mut [u8]) -> Result<(usize, SocketAddr), IoError> {
        proof { use_type_invariant(&self.0); }
        unsupported()
    }

    /// Never called: no value of this type exists.
    pub fn peek_from(&self, _buf: &mut [u8]) -> Result<(usize, SocketAddr), IoError> {
        proof { use_type_invariant(&self.0); }
        unsupported()
    }

    /// Never called: no value of this type exists.
    pub fn send_to(&self, _buf: &[u8], _dst: &SocketAddr) -> Result<usize, IoError> {
        proof { use_type_invariant(&self.0); }
        unsupported()
    }

    /// Never called: no value of this type exists.
    pub fn duplicate(&self) -> Result<UdpSocket, IoError> {
        proof { use_type_invariant(&self.0); }
        unsupported()
    }

    /// Never called: no value of this type exists.
    pub fn set_read_timeout(&self, _dur: Option<Duration>) -> Result<(), IoError> {
        proof { use_type_invariant(&self.0); }
        unsupported()
    }

    /// Never called: no value of this type exists.
    pub fn set_write_timeout(&self, _dur: Option<Duration>) -> Result<(), IoError> {
        proof { use_type_invariant(&self.0); }
        unsupported()
    }

    /// Never called: no value of this type exists.
    pub fn read_timeout(&self) -> Result<Option<Duration>, IoError> {
        proof { use_type_invariant(&self.0); }
        unsupported()
    }

    /// Never called: no value of this type exists.
    pub fn write_timeout(&self) -> Result<Option<Duration>, IoError> {
        proof { use_type_invariant(&self.0); }
        unsupported()
    }

    /// Never called: no value of this type exists.
    pub fn set_broadcast(&self, _broadcast: bool) -> Result<(), IoError> {
        proof { use_type_invariant(&self.0); }
        unsupported()
    }

    /// Never called: no value of this type exists.
    pub fn broadcast(&self) -> Result<bool, IoError> {
        proof { use_type_invariant(&self.0); }
        unsupported()
    }

    /// Never called: no value of this type exists.
    pub fn set_multicast_loop_v4(&self, _on: bool) -> Result<(), IoError> {
        proof { use_type_invariant(&self.0); }
        unsupported()
    }

    /// Never called: no value of this type exists.
    pub fn multicast_loop_v4(&self) -> Result<bool, IoError> {
        proof { use_type_invariant(&self.0); }
        unsupported()
    }

    /// Never called: no value of this type exists.
    pub fn set_multicast_ttl_v4(&self, _ttl: u32) -> Result<(), IoError> {
        proof { use_type_invariant(&self.0); }
        unsupported()
    }

    /// Never called: no value of this type exists.
    pub fn multicast_ttl_v4(&self) -> Result<u32, IoError> {
        proof { use_type_invariant(&self.0); }
        unsupported()
    }

    /// Never called: no value of this type exists.
    pub fn set_multicast_loop_v6(&self, _on: bool) -> Result<(), IoError> {
        proof { use_type_invariant(&self.0); }
        unsupported()
    }

    /// Never called: no value of this type exists.
    pub fn multicast_loop_v6(&self) -> Result<bool, IoError> {
        proof { use_type_invariant(&self.0); }
        unsupported()
    }

    /// Never called: no value of this type exists.
    pub fn join_multicast_v4(&self, _multiaddr: &[u8; 4], _interface: &[u8; 4]) -> Result<(), IoError> {
        proof { use_type_invariant(&self.0); }
        unsupported()
    }

    /// Never called: no value of this type exists.
    pub fn join_multicast_v6(&self, _multiaddr: &[u8; 16], _interface: u32) -> Result<(), IoError> {
        proof { use_type_invariant(&self.0); }
        unsupported()
    }

    /// Never called: no value of this type exists.
    pub fn leave_multicast_v4(&self, _multiaddr: &[u8; 4], _interface: &[u8; 4]) -> Result<(), IoError> {
        proof { use_type_invariant(&self.0); }
        unsupported()
    }

    /// Never called: no value of this type exists.
    pub fn leave_multicast_v6(&self, _multiaddr: &[u8; 16], _interface: u32) -> Result<(), IoError> {
        proof { use_type_invariant(&self.0); }
        unsupported()
    }

    /// Never called: no value of this type exists.
    pub fn set_ttl(&self, _ttl: u32) -> Result<(), IoError> {
        proof { use_type_invariant(&self.0); }
        unsupported()
    }

    /// Never called: no value of this type exists.
    pub fn ttl(&self) -> Result<u32, IoError> {
        proof { use_type_invariant(&self.0); }
        unsupported()
    }

    /// Never called: no value of this type exists.
    pub fn take_error(&self) -> Result<Option<IoError>, IoError> {
        proof { use_type_invariant(&self.0); }
        unsupported()
    }

    /// Never called: no value of this type exists.
    pub fn set_nonblocking(&self, _nonblocking: bool) -> Result<(), IoError> {
        proof { use_type_invariant(&self.0); }
        unsupported()
    }

    /// Never called: no value of this type exists.
    pub fn recv(&self, _buf: &mut [u8]) -> Result<usize, IoError> {
        proof { use_type_invariant(&self.0); }
        unsupported()
    }

    /// Never called: no value of this type exists.
    pub fn peek(&self, _buf: &mut [u8]) -> Result<usize, IoError> {
        proof { use_type_invariant(&self.0); }
        unsupported()
    }

    /// Never called: no value of this type exists.
    pub fn send(&self, _buf: &[u8]) -> Result<usize, IoError> {
        proof { use_type_invariant(&self.0); }
        unsupported()
    }

    /// Never called: no value of this type exists.
    pub fn connect(&self, _addr: &SocketAddr) -> Result<(), IoError> {
        proof { use_type_invariant(&self.0); }
        unsupported()
    }
}

/// Results of a name lookup: no value of this type exists.
pub struct LookupHost(pub Never);

impl LookupHost {
    /// Never called: no value of this type exists.
    pub fn next(&mut self) -> Option<SocketAddr> {
        proof { use_type_invariant(&self.0); }
        None
    }
}

/// Name lookup is not supported.
pub fn lookup_host(_host: &str, _port: u16) -> (r: Result<LookupHost, IoError>)
    ensures
        is_unsupported(r),
{
    unsupported()
}

} // verus!
