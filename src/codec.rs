use vstd::prelude::*;

verus! {

/// Protocol version byte of SOCKS5.
pub const SOCKS_VERSION: u8 = 5;

/// Method identifier for username/password authentication.
pub const METHOD_USER_PASS: u8 = 2;

/// Version byte of the username/password sub-negotiation.
pub const AUTH_VERSION: u8 = 1;

/// Command code of CONNECT.
pub const CMD_CONNECT: u8 = 1;

/// Address-type tags.
pub const ATYP_IPV4: u8 = 1;
pub const ATYP_DOMAIN: u8 = 3;
pub const ATYP_IPV6: u8 = 4;

/// Why a handshake message was refused.
#[derive(Debug, Clone, Copy, PartialEq, Eq, Structural)]
pub enum HandshakeError {
    /// The very first read returned no bytes: the client went away.
    PeerClosed,
    /// The message is shorter than its fixed part or its declared lengths.
    Truncated,
    /// The greeting names a protocol version other than 5.
    UnsupportedVersion,
    /// The request names a command other than CONNECT.
    UnsupportedCommand,
    /// The request names an address type other than IPv4, domain or IPv6.
    UnsupportedAddressType,
}

/// The client's first message: its version and the methods it offers.
pub struct Greeting {
    pub version: u8,
    pub methods: Vec<u8>,
}

/// Copies `msg[start..end]` into a new vector.
pub fn copy_range(msg: &[u8], start: usize, end: usize) -> (r: Vec<u8>)
    requires
        start <= end <= msg@.len(),
    ensures
        r@ == msg@.subrange(start as int, end as int),
{
    let mut r: Vec<u8> = Vec::with_capacity(end - start);
    let mut i: usize = start;
    while i < end
        invariant
            start <= i <= end <= msg@.len(),
            r@ == msg@.subrange(start as int, i as int),
        decreases end - i,
    {
        r.push(msg[i]);
        i = i + 1;
    }
    r
}

/// The greeting carries its two fixed bytes and every method byte it declares.
pub open spec fn greeting_complete(m: Seq<u8>) -> bool {
    m.len() >= 2 && m.len() >= 2 + m[1]
}

/// The greeting is accepted: version 5 and every declared method present.
pub open spec fn greeting_valid(m: Seq<u8>) -> bool {
    m.len() > 0 && m[0] == SOCKS_VERSION && greeting_complete(m)
}

/// The error for a greeting that is not accepted.
pub open spec fn greeting_error(m: Seq<u8>) -> HandshakeError {
    if m.len() == 0 {
        HandshakeError::PeerClosed
    } else if m[0] != SOCKS_VERSION {
        HandshakeError::UnsupportedVersion
    } else {
        HandshakeError::Truncated
    }
}

/// Parses `VER NMETHODS METHODS(NMETHODS)`. Bytes past the declared methods
/// are ignored.
pub fn parse_greeting(msg: &[u8]) -> (r: Result<Greeting, HandshakeError>)
    ensures
        !greeting_valid(msg@) ==> r == Err::<Greeting, HandshakeError>(greeting_error(msg@)),
        greeting_valid(msg@) ==> {
            &&& r is Ok
            &&& r->Ok_0.version == SOCKS_VERSION
            &&& r->Ok_0.methods@ == msg@.subrange(2, 2 + msg@[1])
        },
{
    let n = msg.len();
    if n == 0 {
        return Err(HandshakeError::PeerClosed);
    }
    if msg[0] != SOCKS_VERSION {
        return Err(HandshakeError::UnsupportedVersion);
    }
    if n < 2 {
        return Err(HandshakeError::Truncated);
    }
    let count = msg[1] as usize;
    if n < 2 + count {
        return Err(HandshakeError::Truncated);
    }
    let methods = copy_range(msg, 2, 2 + count);
    Ok(Greeting { version: msg[0], methods })
}


/// The username/password sub-negotiation carries its declared username,
/// its password-length byte and its declared password.
pub open spec fn auth_complete(m: Seq<u8>) -> bool {
    &&& m.len() >= 2
    &&& m.len() >= 3 + m[1]
    &&& m.len() >= 3 + m[1] + m[2 + m[1] as int]
}

/// Username and password as sent, byte for byte; never required to be text.
pub struct Credential {
    pub username: Vec<u8>,
    pub password: Vec<u8>,
}

/// Parses `VER ULEN UNAME(ULEN) PLEN PASSWD(PLEN)` positionally. Bytes past
/// the declared password are ignored; the version byte is not checked.
pub fn parse_auth(msg: &[u8]) -> (r: Result<Credential, HandshakeError>)
    ensures
        !auth_complete(msg@) ==> r == Err::<Credential, HandshakeError>(HandshakeError::Truncated),
        auth_complete(msg@) ==> {
            let u = msg@[1] as int;
            let p = msg@[2 + u] as int;
            &&& r is Ok
            &&& r->Ok_0.username@ == msg@.subrange(2, 2 + u)
            &&& r->Ok_0.password@ == msg@.subrange(3 + u, 3 + u + p)
        },
{
    let n = msg.len();
    if n < 2 {
        return Err(HandshakeError::Truncated);
    }
    let ulen = msg[1] as usize;
    if n < 3 + ulen {
        return Err(HandshakeError::Truncated);
    }
    let plen = msg[2 + ulen] as usize;
    if n < 3 + ulen + plen {
        return Err(HandshakeError::Truncated);
    }
    let username = copy_range(msg, 2, 2 + ulen);
    let password = copy_range(msg, 3 + ulen, 3 + ulen + plen);
    Ok(Credential { username, password })
}

/// A big-endian 16-bit number.
pub open spec fn be16(hi: u8, lo: u8) -> u16 {
    (hi as int * 256 + lo as int) as u16
}

/// Reads a big-endian 16-bit number from two bytes.
pub fn read_be16(hi: u8, lo: u8) -> (r: u16)
    ensures
        r == be16(hi, lo),
        r as int == hi as int * 256 + lo as int,
{
    (hi as u16) * 256 + (lo as u16)
}

/// Where a CONNECT request asks to go.
pub enum Destination {
    /// Four address bytes in network order.
    Ipv4 { octets: Vec<u8>, port: u16 },
    /// Hostname bytes as sent, still to be resolved.
    Domain { host: Vec<u8>, port: u16 },
    /// Sixteen address bytes in network order.
    Ipv6 { octets: Vec<u8>, port: u16 },
}

/// The mathematical content of a `Destination`: its address-type tag, its
/// address bytes and its port.
pub struct DestinationView {
    pub atyp: u8,
    pub addr: Seq<u8>,
    pub port: u16,
}

impl View for Destination {
    type V = DestinationView;

    open spec fn view(&self) -> DestinationView {
        match self {
            Destination::Ipv4 { octets, port } => DestinationView {
                atyp: ATYP_IPV4,
                addr: octets@,
                port: *port,
            },
            Destination::Domain { host, port } => DestinationView {
                atyp: ATYP_DOMAIN,
                addr: host@,
                port: *port,
            },
            Destination::Ipv6 { octets, port } => DestinationView {
                atyp: ATYP_IPV6,
                addr: octets@,
                port: *port,
            },
        }
    }
}

impl Destination {
    /// The port to connect to.
    pub fn port(&self) -> (r: u16)
        ensures
            r == self@.port,
    {
        match self {
            Destination::Ipv4 { port, .. } => *port,
            Destination::Domain { port, .. } => *port,
            Destination::Ipv6 { port, .. } => *port,
        }
    }
}

pub open spec fn supported_atyp(t: u8) -> bool {
    t == ATYP_IPV4 || t == ATYP_DOMAIN || t == ATYP_IPV6
}

/// Index of the first address byte, for a supported address type.
pub open spec fn addr_start(m: Seq<u8>) -> int {
    if m[3] == ATYP_DOMAIN {
        5
    } else {
        4
    }
}

/// Index one past the last address byte, for a supported address type.
pub open spec fn addr_end(m: Seq<u8>) -> int {
    if m[3] == ATYP_IPV4 {
        8
    } else if m[3] == ATYP_DOMAIN {
        5 + m[4]
    } else {
        20
    }
}

/// A request of a supported address type holds its whole address and,
/// after it, the two port bytes.
pub open spec fn request_complete(m: Seq<u8>) -> bool {
    &&& m.len() >= 4
    &&& m[3] == ATYP_DOMAIN ==> m.len() >= 5
    &&& m.len() >= addr_end(m) + 2
}

/// The destination a complete CONNECT request names: the address bytes its
/// type implies, and the port from the message's final two bytes.
pub open spec fn requested(m: Seq<u8>) -> DestinationView {
    DestinationView {
        atyp: m[3],
        addr: m.subrange(addr_start(m), addr_end(m)),
        port: be16(m[m.len() - 2], m[m.len() - 1]),
    }
}

/// The request is accepted: CONNECT, a supported address type, and every
/// byte its address type implies.
pub open spec fn request_valid(m: Seq<u8>) -> bool {
    m.len() >= 4 && m[1] == CMD_CONNECT && supported_atyp(m[3]) && request_complete(m)
}

/// The error for a request that is not accepted.
pub open spec fn request_error(m: Seq<u8>) -> HandshakeError {
    if m.len() < 4 {
        HandshakeError::Truncated
    } else if m[1] != CMD_CONNECT {
        HandshakeError::UnsupportedCommand
    } else if !supported_atyp(m[3]) {
        HandshakeError::UnsupportedAddressType
    } else {
        HandshakeError::Truncated
    }
}

/// Parses `VER CMD RSV ATYP DST.ADDR DST.PORT`. The command is checked
/// before the address type, and both before the address length; the version
/// and reserved bytes are not checked.
pub fn parse_request(msg: &[u8]) -> (r: Result<Destination, HandshakeError>)
    ensures
        !request_valid(msg@) ==> r == Err::<Destination, HandshakeError>(request_error(msg@)),
        request_valid(msg@) ==> r is Ok && r->Ok_0@ == requested(msg@),
{
    let n = msg.len();
    if n < 4 {
        return Err(HandshakeError::Truncated);
    }
    if msg[1] != CMD_CONNECT {
        return Err(HandshakeError::UnsupportedCommand);
    }
    let atyp = msg[3];
    if atyp == ATYP_IPV4 {
        if n < 10 {
            return Err(HandshakeError::Truncated);
        }
        let port = read_be16(msg[n - 2], msg[n - 1]);
        Ok(Destination::Ipv4 { octets: copy_range(msg, 4, 8), port })
    } else if atyp == ATYP_DOMAIN {
        if n < 5 {
            return Err(HandshakeError::Truncated);
        }
        let hlen = msg[4] as usize;
        if n < 7 + hlen {
            return Err(HandshakeError::Truncated);
        }
        let port = read_be16(msg[n - 2], msg[n - 1]);
        Ok(Destination::Domain { host: copy_range(msg, 5, 5 + hlen), port })
    } else if atyp == ATYP_IPV6 {
        if n < 22 {
            return Err(HandshakeError::Truncated);
        }
        let port = read_be16(msg[n - 2], msg[n - 1]);
        Ok(Destination::Ipv6 { octets: copy_range(msg, 4, 20), port })
    } else {
        Err(HandshakeError::UnsupportedAddressType)
    }
}

/// Server's answer to any valid greeting: username/password is selected.
pub fn greeting_reply() -> (r: Vec<u8>)
    ensures
        r@ == seq![SOCKS_VERSION, METHOD_USER_PASS],
{
    vec![SOCKS_VERSION, METHOD_USER_PASS]
}

/// Server's answer to the credential exchange: success.
pub fn auth_reply() -> (r: Vec<u8>)
    ensures
        r@ == seq![AUTH_VERSION, 0u8],
{
    vec![AUTH_VERSION, 0]
}

/// The fixed success answer to a CONNECT request, bound address 0.0.0.0:0.
pub open spec fn connect_reply_bytes() -> Seq<u8> {
    seq![SOCKS_VERSION, 0u8, 0u8, ATYP_IPV4, 0u8, 0u8, 0u8, 0u8, 0u8, 0u8]
}

/// Server's answer to an accepted CONNECT request.
pub fn connect_reply() -> (r: Vec<u8>)
    ensures
        r@ == connect_reply_bytes(),
{
    vec![SOCKS_VERSION, 0, 0, ATYP_IPV4, 0, 0, 0, 0, 0, 0]
}

/// A credential message whose length is exactly its version byte, its two
/// length bytes, the username and the password is accepted, and both fields
/// come out equal to the slices of the message they occupy.
pub proof fn lemma_exact_auth_fields(m: Seq<u8>)
    requires
        m.len() >= 3 + m[1],
        m.len() == 3 + m[1] + m[2 + m[1] as int],
    ensures
        auth_complete(m),
        m.subrange(2, 2 + m[1]).len() == m[1],
        m.subrange(3 + m[1], m.len() as int).len() == m[2 + m[1] as int],
{
}

/// A CONNECT request of address type IPv6 with its sixteen address bytes
/// and port is accepted, and names exactly those bytes and that port.
pub proof fn lemma_ipv6_request(m: Seq<u8>)
    requires
        m.len() == 22,
        m[1] == CMD_CONNECT,
        m[3] == ATYP_IPV6,
    ensures
        request_valid(m),
        requested(m) == (DestinationView {
            atyp: ATYP_IPV6,
            addr: m.subrange(4, 20),
            port: be16(m[20], m[21]),
        }),
{
}

/// A CONNECT request with an address type other than IPv4, domain or IPv6
/// is refused for that reason, whatever follows the tag.
pub proof fn lemma_unsupported_atyp(m: Seq<u8>)
    requires
        m.len() >= 4,
        m[1] == CMD_CONNECT,
        !supported_atyp(m[3]),
    ensures
        !request_valid(m),
        request_error(m) == HandshakeError::UnsupportedAddressType,
{
}

} // verus!
