//! The parts of the SOCKS5 protocol that decisions depend on.

use vstd::prelude::*;

verus! {

/// The handshake method that asks for no authentication.
pub const METHOD_NONE: u8 = 0x00;

/// How a SOCKS5 request is answered.
#[derive(Clone, Copy, Debug, PartialEq, Eq, Structural)]
pub enum Reply {
    Succeeded,
    GeneralFailure,
    ConnectionNotAllowed,
    NetworkUnreachable,
    HostUnreachable,
    ConnectionRefused,
    TtlExpired,
    CommandNotSupported,
    AddressTypeNotSupported,
}

/// What a SOCKS5 request asks for.
#[derive(Clone, Copy, Debug, PartialEq, Eq, Structural)]
pub enum Command {
    Connect,
    Bind,
    Associate,
}

/// An IP address and a port. The IP address is the number that its octets form,
/// the first one being the most significant.
#[derive(Clone, Copy, Debug, PartialEq, Eq, Structural)]
pub enum SocketAddress {
    V4 { ipv4: u32, port: u16 },
    V6 { ipv6: u128, port: u16, flowinfo: u32, scope_id: u32 },
}

/// Where a request wants to go: a socket address, or a host name as it stood in
/// the request, and a port.
#[derive(Debug, PartialEq, Eq)]
pub enum Address {
    SocketAddress(SocketAddress),
    DomainAddress(Vec<u8>, u16),
}

/// What an [`Address`] says.
pub enum AddressView {
    SocketAddress(SocketAddress),
    DomainAddress(Seq<u8>, u16),
}

impl View for Address {
    type V = AddressView;

    open spec fn view(&self) -> AddressView {
        match self {
            Address::SocketAddress(socket) => AddressView::SocketAddress(*socket),
            Address::DomainAddress(host, port) => AddressView::DomainAddress(host@, *port),
        }
    }
}

/// The address 0.0.0.0:0, which stands in a reply that has none to tell.
pub open spec fn unspecified_address() -> Address {
    Address::SocketAddress(SocketAddress::V4 { ipv4: 0, port: 0 })
}

impl Address {
    /// The address 0.0.0.0:0.
    pub fn unspecified() -> (address: Self)
        ensures
            address == unspecified_address(),
            address == Address::SocketAddress(SocketAddress::V4 { ipv4: 0, port: 0 }),
    {
        Address::SocketAddress(SocketAddress::V4 { ipv4: 0, port: 0 })
    }
}

impl Clone for Address {
    fn clone(&self) -> (copy: Self)
        ensures
            copy@ == self@,
            match *self {
                Address::SocketAddress(socket) => copy == Address::SocketAddress(socket),
                Address::DomainAddress(host, port) => {
                    &&& copy matches Address::DomainAddress(copied, to)
                    &&& copied@ == host@
                    &&& to == port
                },
            },
    {
        match self {
            Address::SocketAddress(socket) => Address::SocketAddress(*socket),
            Address::DomainAddress(host, port) => {
                let copied: Vec<u8> = host.clone();
                assert(copied@ =~= host@);
                Address::DomainAddress(copied, *port)
            },
        }
    }
}

/// Where to connect for an [`Address`]: a socket address as it is, or a host
/// name that is looked up first.
#[derive(Debug, PartialEq, Eq)]
pub enum Target {
    Socket(SocketAddress),
    Host(String, u16),
}

/// What a [`Target`] says.
pub enum TargetView {
    Socket(SocketAddress),
    Host(Seq<char>, u16),
}

impl View for Target {
    type V = TargetView;

    open spec fn view(&self) -> TargetView {
        match self {
            Target::Socket(socket) => TargetView::Socket(*socket),
            Target::Host(name, port) => TargetView::Host(name@, *port),
        }
    }
}

/// The text that `String::from_utf8_lossy` makes of bytes.
pub uninterp spec fn utf8_lossy(bytes: Seq<u8>) -> Seq<char>;

/// Calls `String::from_utf8_lossy`. The text depends on the bytes alone, and
/// bytes that are valid UTF-8 give the text that they encode. What stands in for
/// invalid bytes is left unsaid.
#[verifier::external_body]
fn decode_lossy(bytes: &Vec<u8>) -> (text: String)
    ensures
        text@ == utf8_lossy(bytes@),
        vstd::utf8::valid_utf8(bytes@) ==> text@ == vstd::utf8::decode_utf8(bytes@),
{
    String::from_utf8_lossy(bytes).into_owned()
}

/// Where to connect for an address.
pub open spec fn target_of(address: AddressView) -> TargetView {
    match address {
        AddressView::SocketAddress(socket) => TargetView::Socket(socket),
        AddressView::DomainAddress(host, port) => TargetView::Host(utf8_lossy(host), port),
    }
}

/// Whether `target` is where to connect for `address`; of a host name that is
/// valid UTF-8 this is the name that the bytes encode.
pub open spec fn is_target_for(target: TargetView, address: AddressView) -> bool {
    &&& target == target_of(address)
    &&& match address {
        AddressView::SocketAddress(_) => true,
        AddressView::DomainAddress(host, port) => vstd::utf8::valid_utf8(host) ==> target
            == TargetView::Host(vstd::utf8::decode_utf8(host), port),
    }
}

/// Finds out where to connect for an address. A host name is read as UTF-8;
/// what is not UTF-8 in it is replaced.
pub fn connect_target(address: &Address) -> (target: Target)
    ensures
        is_target_for(target@, address@),
        match *address {
            Address::SocketAddress(socket) => target == Target::Socket(socket),
            Address::DomainAddress(host, port) => {
                &&& target matches Target::Host(name, to)
                &&& to == port
                &&& name@ == utf8_lossy(host@)
                &&& vstd::utf8::valid_utf8(host@) ==> name@ == vstd::utf8::decode_utf8(host@)
            },
        },
{
    match address {
        Address::SocketAddress(socket) => Target::Socket(*socket),
        Address::DomainAddress(host, port) => Target::Host(decode_lossy(host), *port),
    }
}

/// What an address says is all there is to it: addresses that say the same are
/// the same socket address, or the same host name and the same port.
pub proof fn law_address_says_all(one: Address, other: Address)
    ensures
        one@ == other@ <==> match (one, other) {
            (Address::SocketAddress(socket), Address::SocketAddress(that)) => socket == that,
            (Address::DomainAddress(host, port), Address::DomainAddress(name, to)) => host@
                == name@ && port == to,
            _ => false,
        },
        one matches Address::SocketAddress(socket) ==> one@ == AddressView::SocketAddress(socket),
        one matches Address::DomainAddress(host, port) ==> one@ == AddressView::DomainAddress(
            host@,
            port,
        ),
{
}

/// The same of targets.
pub proof fn law_target_says_all(one: Target, other: Target)
    ensures
        one@ == other@ <==> match (one, other) {
            (Target::Socket(socket), Target::Socket(that)) => socket == that,
            (Target::Host(host, port), Target::Host(name, to)) => host@ == name@ && port == to,
            _ => false,
        },
        one matches Target::Socket(socket) ==> one@ == TargetView::Socket(socket),
        one matches Target::Host(host, port) ==> one@ == TargetView::Host(host@, port),
{
}

/// A connection goes where the request wants it: to a socket address it goes as
/// that stands, with the same IP address, port, flow info and scope; to a host it
/// goes with the same port, and by the name that the bytes encode if they are
/// UTF-8. So requests for different socket addresses never go to the same one.
pub proof fn law_target_is_what_was_asked_for(
    socket: SocketAddress,
    other: SocketAddress,
    host: Seq<u8>,
    port: u16,
    target: TargetView,
)
    ensures
        is_target_for(target, AddressView::SocketAddress(socket)) <==> target
            == TargetView::Socket(socket),
        target_of(AddressView::SocketAddress(socket)) == target_of(
            AddressView::SocketAddress(other),
        ) <==> socket == other,
        is_target_for(target, AddressView::DomainAddress(host, port)) ==> {
            &&& target matches TargetView::Host(name, to)
            &&& to == port
            &&& name == utf8_lossy(host)
            &&& vstd::utf8::valid_utf8(host) ==> name == vstd::utf8::decode_utf8(host)
        },
{
}

/// The address that stands in a reply that has none to tell is all zeros.
pub proof fn law_unspecified_address_is_zero()
    ensures
        unspecified_address() matches Address::SocketAddress(SocketAddress::V4 { ipv4, port })
            && ipv4 == 0 && port == 0,
        METHOD_NONE == 0,
{
}

} // verus!
