//! Targets of a probe: addresses, and the resolution of a host string into
//! the address that every attempt connects to.
use vstd::prelude::*;

use crate::error::{CODE_RUNTIME_ERROR, Error, SourceError};

verus! {

/// An IP address: IPv4 as its 32-bit number, IPv6 as its 128-bit number.
#[derive(Copy, Clone, Debug, PartialEq, Eq, Structural, Hash)]
pub enum IpAddress {
    V4(u32),
    V6(u128),
}

/// An IP address with a port.
#[derive(Copy, Clone, Debug, PartialEq, Eq, Structural, Hash)]
pub struct SocketAddress {
    pub ip: IpAddress,
    pub port: u16,
}

/// A target: the host as it was given, and the address it resolved to.
#[derive(Clone, Debug)]
pub struct Host {
    /// Remote hostname, like example.com, as it was given.
    name: String,
    /// Remote ip:port to connect to.
    addr: SocketAddress,
}

/// The first step of resolving a host.
#[derive(Copy, Clone, Debug, PartialEq, Eq, Structural)]
pub enum Resolution {
    /// The host was a literal address: this is the target, with no lookup.
    Resolved(SocketAddress),
    /// The host is a name: it has to be looked up.
    NeedsLookup,
}

impl Default for Host {
    fn default() -> (r: Host)
        ensures
            r.spec_name().len() == 0,
            r.spec_addr() == (SocketAddress { ip: IpAddress::V4(0), port: 0 }),
    {
        Host { name: String::new(), addr: SocketAddress { ip: IpAddress::V4(0), port: 0 } }
    }
}

impl Host {
    pub closed spec fn spec_name(&self) -> Seq<char> {
        self.name@
    }

    pub closed spec fn spec_addr(&self) -> SocketAddress {
        self.addr
    }

    pub fn new(host: &str, addr: SocketAddress) -> (r: Host)
        ensures
            r.spec_name() == host@,
            r.spec_addr() == addr,
    {
        Host { name: host.to_owned(), addr }
    }

    pub fn name(&self) -> (r: &str)
        ensures
            r@ == self.spec_name(),
    {
        self.name.as_str()
    }

    pub fn ip(&self) -> (r: IpAddress)
        ensures
            r == self.spec_addr().ip,
    {
        self.addr.ip
    }

    pub fn port(&self) -> (r: u16)
        ensures
            r == self.spec_addr().port,
    {
        self.addr.port
    }

    pub fn addr(&self) -> (r: &SocketAddress)
        ensures
            *r == self.spec_addr(),
    {
        &self.addr
    }
}

/// Decides how a host is resolved, given `literal`, the host read as a literal
/// IPv4 or IPv6 address (`None` when it is not one). A literal address is used
/// as it is and never looked up; any other host needs a lookup.
pub fn to_socket(port: u16, literal: Option<IpAddress>) -> (r: Resolution)
    ensures
        match literal {
            Some(ip) => r == Resolution::Resolved(SocketAddress { ip, port }),
            None => r == Resolution::NeedsLookup,
        },
{
    match literal {
        Some(ip) => Resolution::Resolved(SocketAddress { ip, port }),
        None => Resolution::NeedsLookup,
    }
}

/// The target chosen from what a lookup of `host` gave: the first address in
/// the order the lookup returned them. A failed lookup becomes an error that
/// names the host and keeps the cause; a lookup that found nothing becomes an
/// error too. Both carry the runtime-error code.
pub fn from_lookup(host: &str, port: u16, found: Result<Vec<IpAddress>, std::io::Error>) -> (r:
    Result<SocketAddress, Error>)
    ensures
        match found {
            Ok(ips) => if ips@.len() > 0 {
                r == Ok::<SocketAddress, Error>(SocketAddress { ip: ips@[0], port })
            } else {
                &&& r is Err
                &&& r->Err_0.spec_code() == Some(CODE_RUNTIME_ERROR)
                &&& r->Err_0.spec_context().len() == 0
                &&& r->Err_0.spec_source() is Msg
                &&& r->Err_0.spec_source()->Msg_0@ == "No IP addresses found for hostname: "@
                    + host@
            },
            Err(e) => {
                &&& r is Err
                &&& r->Err_0.spec_code() == Some(CODE_RUNTIME_ERROR)
                &&& r->Err_0.spec_context() == "Hostname lookup failed: "@ + host@
                &&& *r->Err_0.spec_source() == SourceError::Io(e)
            },
        },
{
    match found {
        Ok(ips) => {
            if ips.len() == 0 {
                let mut m = String::from_str("No IP addresses found for hostname: ");
                m.append(host);
                Err(Error::new(SourceError::Msg(m)).set_code(CODE_RUNTIME_ERROR))
            } else {
                Ok(SocketAddress { ip: ips[0], port })
            }
        },
        Err(e) => {
            let mut c = String::from_str("Hostname lookup failed: ");
            c.append(host);
            proof {
                reveal_strlit("Hostname lookup failed: ");
            }
            Err(Error::new(SourceError::Io(e)).set_context(c.as_str()).set_code(CODE_RUNTIME_ERROR))
        },
    }
}

} // verus!
