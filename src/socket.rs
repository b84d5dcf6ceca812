use vstd::prelude::*;

use crate::errno::Errno;

verus! {

/// Communication domains.
#[derive(Debug, Clone, Copy, PartialEq, Eq, Structural)]
pub enum Domain {
    Ipv4,
    Ipv6,
    Unix,
}

/// The family of a socket address; `Unspec` is the unspecified address.
#[derive(Debug, Clone, Copy, PartialEq, Eq, Structural)]
pub enum AddrFamily {
    Ipv4,
    Ipv6,
    Unix,
    Unspec,
}

/// The socket variants a socket file dispatches to.
#[derive(Debug, Clone, Copy, PartialEq, Eq, Structural)]
pub enum SocketKind {
    UnixStream,
    Ipv4Stream,
    UnixDatagram,
    Ipv4Datagram,
}

/// What a `connect` does on the inner socket.
#[derive(Debug, Clone, Copy, PartialEq, Eq, Structural)]
pub enum ConnectTarget {
    /// Connect to the given address.
    Peer,
    /// Dissolve a datagram socket's association: connect to no address.
    Disassociate,
}

impl SocketKind {
    pub open spec fn spec_is_stream(self) -> bool {
        self == SocketKind::UnixStream || self == SocketKind::Ipv4Stream
    }

    /// The address family that this variant's addresses have.
    pub open spec fn spec_family(self) -> AddrFamily {
        match self {
            SocketKind::UnixStream | SocketKind::UnixDatagram => AddrFamily::Unix,
            SocketKind::Ipv4Stream | SocketKind::Ipv4Datagram => AddrFamily::Ipv4,
        }
    }

    pub fn is_stream(&self) -> (r: bool)
        ensures
            r == self.spec_is_stream(),
    {
        match self {
            SocketKind::UnixStream | SocketKind::Ipv4Stream => true,
            _ => false,
        }
    }

    pub fn domain(&self) -> (r: Domain)
        ensures
            r == (if self.spec_family() == AddrFamily::Unix {
                Domain::Unix
            } else {
                Domain::Ipv4
            }),
    {
        match self {
            SocketKind::UnixStream | SocketKind::UnixDatagram => Domain::Unix,
            _ => Domain::Ipv4,
        }
    }

    pub fn family(&self) -> (r: AddrFamily)
        ensures
            r == self.spec_family(),
    {
        match self {
            SocketKind::UnixStream | SocketKind::UnixDatagram => AddrFamily::Unix,
            _ => AddrFamily::Ipv4,
        }
    }

    /// The variant for a new socket of `domain`; IPv6 is not supported.
    pub fn for_domain(domain: Domain, is_stream: bool) -> (r: Result<SocketKind, Errno>)
        ensures
            domain == Domain::Ipv6 <==> r == Err::<SocketKind, Errno>(Errno::EINVAL),
            domain == Domain::Ipv4 && is_stream ==> r == Ok::<SocketKind, Errno>(
                SocketKind::Ipv4Stream,
            ),
            domain == Domain::Unix && is_stream ==> r == Ok::<SocketKind, Errno>(
                SocketKind::UnixStream,
            ),
            domain == Domain::Ipv4 && !is_stream ==> r == Ok::<SocketKind, Errno>(
                SocketKind::Ipv4Datagram,
            ),
            domain == Domain::Unix && !is_stream ==> r == Ok::<SocketKind, Errno>(
                SocketKind::UnixDatagram,
            ),
    {
        match (domain, is_stream) {
            (Domain::Ipv4, true) => Ok(SocketKind::Ipv4Stream),
            (Domain::Unix, true) => Ok(SocketKind::UnixStream),
            (Domain::Ipv4, false) => Ok(SocketKind::Ipv4Datagram),
            (Domain::Unix, false) => Ok(SocketKind::UnixDatagram),
            (Domain::Ipv6, _) => Err(Errno::EINVAL),
        }
    }

    /// The variant of both ends of a connected pair: Unix domain.
    pub fn for_pair(is_stream: bool) -> (r: SocketKind)
        ensures
            r == (if is_stream {
                SocketKind::UnixStream
            } else {
                SocketKind::UnixDatagram
            }),
    {
        if is_stream {
            SocketKind::UnixStream
        } else {
            SocketKind::UnixDatagram
        }
    }

    /// Checks an address given to this variant: its family must be this
    /// variant's.
    pub fn check_addr(&self, addr: AddrFamily) -> (r: Result<(), Errno>)
        ensures
            r is Ok <==> addr == self.spec_family(),
            r is Err ==> r == Err::<(), Errno>(Errno::EINVAL),
    {
        if addr == self.family() {
            Ok(())
        } else {
            Err(Errno::EINVAL)
        }
    }

    /// The plan of `connect` to an address of family `addr`. A stream needs
    /// an address of its family; a datagram socket also takes the
    /// unspecified address, which dissolves its association.
    pub fn connect_target(&self, addr: AddrFamily) -> (r: Result<ConnectTarget, Errno>)
        ensures
            addr == self.spec_family() ==> r == Ok::<ConnectTarget, Errno>(ConnectTarget::Peer),
            addr == AddrFamily::Unspec && !self.spec_is_stream() ==> r == Ok::<
                ConnectTarget,
                Errno,
            >(ConnectTarget::Disassociate),
            addr != self.spec_family() && (addr != AddrFamily::Unspec || self.spec_is_stream())
                ==> r == Err::<ConnectTarget, Errno>(Errno::EINVAL),
    {
        if addr == AddrFamily::Unspec && !self.is_stream() {
            return Ok(ConnectTarget::Disassociate);
        }
        match self.check_addr(addr) {
            Ok(()) => Ok(ConnectTarget::Peer),
            Err(e) => Err(e),
        }
    }

    /// Checks an operation that only streams have (`listen`, `accept`,
    /// `shutdown`).
    pub fn check_stream_only(&self) -> (r: Result<(), Errno>)
        ensures
            r is Ok <==> self.spec_is_stream(),
            r is Err ==> r == Err::<(), Errno>(Errno::EINVAL),
    {
        if self.is_stream() {
            Ok(())
        } else {
            Err(Errno::EINVAL)
        }
    }

    /// The check of `sendmsg` with an optional destination of family
    /// `addr`. Returns whether the destination is handed to the inner
    /// socket: a connected stream takes none, a datagram socket one of its
    /// family.
    pub fn send_dest(&self, addr: Option<AddrFamily>) -> (r: Result<bool, Errno>)
        ensures
            addr.is_none() ==> r == Ok::<bool, Errno>(false),
            addr.is_some() && self.spec_is_stream() ==> r == Err::<bool, Errno>(Errno::EISCONN),
            addr.is_some() && !self.spec_is_stream() ==> (if addr.unwrap()
                == self.spec_family() {
                r == Ok::<bool, Errno>(true)
            } else {
                r == Err::<bool, Errno>(Errno::EINVAL)
            }),
    {
        match addr {
            None => Ok(false),
            Some(family) => {
                if self.is_stream() {
                    Err(Errno::EISCONN)
                } else {
                    match self.check_addr(family) {
                        Ok(()) => Ok(true),
                        Err(e) => Err(e),
                    }
                }
            },
        }
    }
}

} // verus!
