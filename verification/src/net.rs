//! Sockets of the kernel's network stack (system call 75): address records, protocol
//! numbers, and what the kernel's replies mean.
use vstd::prelude::*;
use crate::kos_error::{NetworkError, NetworkResult, is_network_error_code, network_error_code};

verus! {

/// The descriptor of a socket.
pub type SocketDescriptor = usize;

/// Address families.
#[derive(Debug, Clone, Copy, PartialEq, Eq, Structural)]
pub enum SocketAddrFamily {
    Unspecified,
    Local,
    Inet4,
    Inet6,
}

pub open spec fn family_code(f: SocketAddrFamily) -> int {
    match f {
        SocketAddrFamily::Unspecified => 0,
        SocketAddrFamily::Local => 1,
        SocketAddrFamily::Inet4 => 2,
        SocketAddrFamily::Inet6 => 3,
    }
}

impl SocketAddrFamily {
    /// The number of the family.
    pub fn code(self) -> (c: u16)
        ensures
            c == family_code(self),
    {
        match self {
            SocketAddrFamily::Unspecified => 0,
            SocketAddrFamily::Local => 1,
            SocketAddrFamily::Inet4 => 2,
            SocketAddrFamily::Inet6 => 3,
        }
    }
}

/// Socket types.
#[derive(Debug, Clone, Copy, PartialEq, Eq, Structural)]
pub enum SocketType {
    Stream,
    Dgram,
    Raw,
}

pub open spec fn socket_type_code(t: SocketType) -> int {
    match t {
        SocketType::Stream => 1,
        SocketType::Dgram => 2,
        SocketType::Raw => 3,
    }
}

impl SocketType {
    /// The number of the socket type.
    pub fn code(self) -> (c: usize)
        ensures
            c == socket_type_code(self),
    {
        match self {
            SocketType::Stream => 1,
            SocketType::Dgram => 2,
            SocketType::Raw => 3,
        }
    }
}

/// Protocols of the IP family.
#[derive(Debug, Clone, Copy, PartialEq, Eq, Structural)]
pub enum IpProtocol {
    Ip,
    Icmp,
    Tcp,
    Udp,
    Raw,
}

pub open spec fn ip_protocol_code(p: IpProtocol) -> int {
    match p {
        IpProtocol::Ip => 0,
        IpProtocol::Icmp => 1,
        IpProtocol::Tcp => 6,
        IpProtocol::Udp => 17,
        IpProtocol::Raw => 255,
    }
}

impl IpProtocol {
    /// The IP protocol number.
    pub fn code(self) -> (c: u8)
        ensures
            c == ip_protocol_code(self),
    {
        match self {
            IpProtocol::Ip => 0,
            IpProtocol::Icmp => 1,
            IpProtocol::Tcp => 6,
            IpProtocol::Udp => 17,
            IpProtocol::Raw => 255,
        }
    }
}

/// A protocol, by family.
#[derive(Debug, Clone, Copy, PartialEq, Eq, Structural)]
pub enum SocketProtocol {
    Ip(IpProtocol),
}

impl SocketProtocol {
    /// The protocol number that the kernel takes.
    pub fn into_raw(self) -> (n: usize)
        ensures
            match self {
                SocketProtocol::Ip(p) => n == ip_protocol_code(p),
            },
    {
        match self {
            SocketProtocol::Ip(prot) => prot.code() as usize,
        }
    }
}

/// A socket address record: family, port, IPv4 address and 8 reserved bytes.
#[derive(Debug, Clone, Copy, PartialEq, Eq)]
pub struct SocketAddr {
    pub family: SocketAddrFamily,
    /// The port in network byte order, as the field holds it in memory.
    pub port: u16,
    pub ip: u32,
    pub reserved: [u8; 8],
}

impl SocketAddr {
    /// A record with the reserved bytes zero.
    pub fn new(family: SocketAddrFamily, ip: u32, port: u16) -> (a: SocketAddr)
        ensures
            a.family == family,
            a.ip == ip,
            a.port == port,
            a.reserved@ == seq![0u8, 0u8, 0u8, 0u8, 0u8, 0u8, 0u8, 0u8],
    {
        let a = SocketAddr { family, port, ip, reserved: [0u8; 8] };
        assert(a.reserved@ =~= seq![0u8, 0u8, 0u8, 0u8, 0u8, 0u8, 0u8, 0u8]);
        a
    }
}

/// The value of a `u16` after `to_be` on the little-endian x86 target: its two bytes
/// swapped.
pub open spec fn port_to_network(port: u16) -> u16 {
    ((port % 256) * 256 + port / 256) as u16
}

/// The `u32` whose little-endian bytes are `b`.
pub open spec fn ipv4_from_octets(b: Seq<u8>) -> u32 {
    (b[0] + 256 * b[1] + 65536 * b[2] + 16777216 * b[3]) as u32
}

/// The address field of the record, read as four little-endian bytes, gives back the four
/// octets in order: the lowest byte is the first octet and the highest the last.
pub proof fn lemma_ipv4_octets_in_order(b: Seq<u8>)
    requires
        b.len() == 4,
    ensures
        ipv4_from_octets(b) % 256 == b[0],
        (ipv4_from_octets(b) / 256) % 256 == b[1],
        (ipv4_from_octets(b) / 65536) % 256 == b[2],
        ipv4_from_octets(b) / 16777216 == b[3],
{
    let (b0, b1, b2, b3) = (b[0] as int, b[1] as int, b[2] as int, b[3] as int);
    let x = b0 + 256 * b1 + 65536 * b2 + 16777216 * b3;
    assert(0 <= x <= u32::MAX);
    assert(ipv4_from_octets(b) == x);
    assert(x % 256 == b0 && x / 256 == b1 + 256 * b2 + 65536 * b3) by (nonlinear_arith)
        requires x == b0 + 256 * b1 + 65536 * b2 + 16777216 * b3, 0 <= b0 < 256, 0 <= b1 < 256,
            0 <= b2 < 256, 0 <= b3 < 256;
    assert(x / 65536 == b2 + 256 * b3 && (x / 256) % 256 == b1) by (nonlinear_arith)
        requires x == b0 + 256 * b1 + 65536 * b2 + 16777216 * b3, 0 <= b0 < 256, 0 <= b1 < 256,
            0 <= b2 < 256, 0 <= b3 < 256;
    assert((x / 65536) % 256 == b2 && x / 16777216 == b3) by (nonlinear_arith)
        requires x == b0 + 256 * b1 + 65536 * b2 + 16777216 * b3, 0 <= b0 < 256, 0 <= b1 < 256,
            0 <= b2 < 256, 0 <= b3 < 256;
}

/// The port in network order has the port's two bytes swapped: its high byte is the port's
/// low byte and its low byte the port's high byte.
pub proof fn lemma_port_bytes_swapped(port: u16)
    ensures
        port_to_network(port) / 256 == port % 256,
        port_to_network(port) % 256 == port / 256,
{
    let lo = port % 256;
    let hi = port / 256;
    assert(lo * 256 + hi <= u16::MAX);
    assert((lo * 256 + hi) / 256 == lo && (lo * 256 + hi) % 256 == hi) by (nonlinear_arith)
        requires 0 <= lo < 256, 0 <= hi < 256;
}

fn swap_port(port: u16) -> (p: u16)
    ensures
        p == port_to_network(port),
{
    (port % 256) * 256 + port / 256
}

/// The record for an IPv4 address (its four octets in order) and a port.
pub fn ipv4_socket_addr(addr: &[u8; 4], port: u16) -> (a: SocketAddr)
    ensures
        a.family == SocketAddrFamily::Inet4,
        a.ip == ipv4_from_octets(addr@),
        a.ip % 256 == addr[0] && (a.ip / 256) % 256 == addr[1] && (a.ip / 65536) % 256 == addr[2]
            && a.ip / 16777216 == addr[3],
        a.port == port_to_network(port),
        a.reserved@ == seq![0u8, 0u8, 0u8, 0u8, 0u8, 0u8, 0u8, 0u8],
{
    proof { lemma_ipv4_octets_in_order(addr@); }
    let ip = (addr[0] as u32) + 256 * (addr[1] as u32) + 65536 * (addr[2] as u32) + 16777216 * (addr[3] as u32);
    SocketAddr::new(SocketAddrFamily::Inet4, ip, swap_port(port))
}

/// Whether the first register of a socket reply marks a failure (-1 in 32 bits).
pub open spec fn failed(value: usize) -> bool {
    value as i32 == -1
}

/// An open socket.
#[derive(Debug, PartialEq, Eq)]
pub struct Socket {
    pub sd: SocketDescriptor,
    pub family: SocketAddrFamily,
    pub stype: SocketType,
    pub proto: SocketProtocol,
}

/// A connected stream socket.
#[derive(Debug, PartialEq, Eq)]
pub struct SocketStream {
    pub socket: Socket,
}

fn network_error(code: usize) -> (e: NetworkError)
    requires
        is_network_error_code(code as int),
    ensures
        network_error_code(e) == code,
{
    NetworkError::from_code(code).unwrap()
}

impl Socket {
    /// The socket that the "open socket" reply `(socket_nr, error)` describes: an error when
    /// the number is -1, else the socket with that descriptor.
    pub fn open(
        family: SocketAddrFamily,
        stype: SocketType,
        proto: SocketProtocol,
        socket_nr: usize,
        error: usize,
    ) -> (r: NetworkResult<Socket>)
        requires
            failed(socket_nr) ==> is_network_error_code(error as int),
        ensures
            failed(socket_nr) ==> r is Err && network_error_code(r->Err_0) == error,
            !failed(socket_nr) ==> r == Ok::<Socket, NetworkError>(Socket { sd: socket_nr, family, stype, proto }),
    {
        if (socket_nr as i32) == -1 {
            Err(network_error(error))
        } else {
            Ok(Socket { sd: socket_nr, family, stype, proto })
        }
    }

    /// The result of closing, from the reply `(is_error, error)`.
    pub fn socket_close(&self, is_error: usize, error: usize) -> (r: NetworkResult<()>)
        requires
            failed(is_error) ==> is_network_error_code(error as int),
        ensures
            failed(is_error) ==> r is Err && network_error_code(r->Err_0) == error,
            !failed(is_error) ==> r == Ok::<(), NetworkError>(()),
    {
        if (is_error as i32) == -1 {
            Err(network_error(error))
        } else {
            Ok(())
        }
    }

    /// The result of binding, from the reply `(is_error, error)`.
    pub fn bind_ipv4(&self, is_error: usize, error: usize) -> (r: NetworkResult<()>)
        requires
            failed(is_error) ==> is_network_error_code(error as int),
        ensures
            failed(is_error) ==> r is Err && network_error_code(r->Err_0) == error,
            !failed(is_error) ==> r == Ok::<(), NetworkError>(()),
    {
        if (is_error as i32) == -1 {
            Err(network_error(error))
        } else {
            Ok(())
        }
    }

    /// The stream that connecting yields, from the reply `(is_error, error)`.
    pub fn connect_ipv4(self, is_error: usize, error: usize) -> (r: NetworkResult<SocketStream>)
        requires
            failed(is_error) ==> is_network_error_code(error as int),
        ensures
            failed(is_error) ==> r is Err && network_error_code(r->Err_0) == error,
            !failed(is_error) ==> r == Ok::<SocketStream, NetworkError>(SocketStream { socket: self }),
    {
        if (is_error as i32) == -1 {
            Err(network_error(error))
        } else {
            Ok(SocketStream { socket: self })
        }
    }
}

/// A transfer count of `usize::MAX` (-1) marks a failed send or receive.
pub open spec fn transfer_failed(count: usize) -> bool {
    count == usize::MAX
}

impl SocketStream {
    /// The bytes sent, from the reply `(bytes_copied, error)`.
    pub fn send(&self, bytes_copied: usize, error: usize) -> (r: NetworkResult<usize>)
        requires
            transfer_failed(bytes_copied) ==> is_network_error_code(error as int),
        ensures
            transfer_failed(bytes_copied) ==> r is Err && network_error_code(r->Err_0) == error,
            !transfer_failed(bytes_copied) ==> r == Ok::<usize, NetworkError>(bytes_copied),
    {
        if bytes_copied == usize::MAX {
            Err(network_error(error))
        } else {
            Ok(bytes_copied)
        }
    }

    /// The bytes received, from the reply `(bytes_copied, error)`.
    pub fn recv(&self, bytes_copied: usize, error: usize) -> (r: NetworkResult<usize>)
        requires
            transfer_failed(bytes_copied) ==> is_network_error_code(error as int),
        ensures
            transfer_failed(bytes_copied) ==> r is Err && network_error_code(r->Err_0) == error,
            !transfer_failed(bytes_copied) ==> r == Ok::<usize, NetworkError>(bytes_copied),
    {
        if bytes_copied == usize::MAX {
            Err(network_error(error))
        } else {
            Ok(bytes_copied)
        }
    }
}

/// The numbers of the address families, socket types and IP protocols, as the kernel's
/// socket calls take them.
pub proof fn lemma_socket_code_tables()
    ensures
        family_code(SocketAddrFamily::Unspecified) == 0,
        family_code(SocketAddrFamily::Local) == 1,
        family_code(SocketAddrFamily::Inet4) == 2,
        family_code(SocketAddrFamily::Inet6) == 3,
        socket_type_code(SocketType::Stream) == 1,
        socket_type_code(SocketType::Dgram) == 2,
        socket_type_code(SocketType::Raw) == 3,
        ip_protocol_code(IpProtocol::Ip) == 0,
        ip_protocol_code(IpProtocol::Icmp) == 1,
        ip_protocol_code(IpProtocol::Tcp) == 6,
        ip_protocol_code(IpProtocol::Udp) == 17,
        ip_protocol_code(IpProtocol::Raw) == 255,
{
}

} // verus!
