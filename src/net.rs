//! IP addresses and CIDR blocks as plain values.
use vstd::arithmetic::power2::pow2;
use vstd::prelude::*;

verus! {

/// An IP address: an IPv4 address as its 32-bit value, an IPv6 address as
/// its 128-bit value.
#[derive(Clone, Copy, Debug, PartialEq, Eq, Structural)]
pub enum IpAddress {
    V4(u32),
    V6(u128),
}

/// A CIDR block: a base address and the length of its network prefix.
#[derive(Clone, Copy, Debug, PartialEq, Eq, Structural)]
pub struct Cidr {
    pub addr: IpAddress,
    pub prefix_len: u8,
}

impl Cidr {
    /// The prefix fits the address family.
    pub open spec fn wf(&self) -> bool {
        match self.addr {
            IpAddress::V4(_) => self.prefix_len <= 32,
            IpAddress::V6(_) => self.prefix_len <= 128,
        }
    }

    /// `ip` belongs to the block: same family, and its leading `prefix_len`
    /// bits equal those of the base address.
    pub open spec fn holds(&self, ip: IpAddress) -> bool {
        match (self.addr, ip) {
            (IpAddress::V4(a), IpAddress::V4(b)) => a as int / pow2((32 - self.prefix_len) as nat) as int
                == b as int / pow2((32 - self.prefix_len) as nat) as int,
            (IpAddress::V6(a), IpAddress::V6(b)) => a as int / pow2((128 - self.prefix_len) as nat) as int
                == b as int / pow2((128 - self.prefix_len) as nat) as int,
            _ => false,
        }
    }
}

/// The address that the text `s` denotes, if it is an IP address literal.
pub uninterp spec fn ip_literal(s: Seq<char>) -> Option<IpAddress>;

/// The block that the text `s` denotes, if it is in CIDR notation.
pub uninterp spec fn cidr_literal(s: Seq<char>) -> Option<Cidr>;

/// Relies on `core::net::IpAddr::from_str` to read an IPv4 or IPv6 address
/// literal; the address is handed back as its integer value.
#[verifier::external_body]
pub(crate) fn parse_ip(s: &str) -> (r: Option<IpAddress>)
    ensures
        r == ip_literal(s@),
{
    match s.parse::<core::net::IpAddr>() {
        Ok(core::net::IpAddr::V4(a)) => Some(IpAddress::V4(u32::from(a))),
        Ok(core::net::IpAddr::V6(a)) => Some(IpAddress::V6(u128::from(a))),
        Err(_) => None,
    }
}

/// Relies on `ipnet::IpNet::from_str` to read a block in CIDR notation; an
/// `IpNet` never holds a prefix longer than its address family allows.
#[verifier::external_body]
pub(crate) fn parse_cidr(s: &str) -> (r: Option<Cidr>)
    ensures
        r == cidr_literal(s@),
        r matches Some(c) ==> c.wf(),
{
    match s.parse::<ipnet::IpNet>() {
        Ok(ipnet::IpNet::V4(n)) => Some(Cidr { addr: IpAddress::V4(u32::from(n.addr())), prefix_len: n.prefix_len() }),
        Ok(ipnet::IpNet::V6(n)) => Some(Cidr { addr: IpAddress::V6(u128::from(n.addr())), prefix_len: n.prefix_len() }),
        Err(_) => None,
    }
}

/// Relies on `ipnet::IpNet::contains`: an address of the block's family lies
/// between the block's network and broadcast addresses, which is to say its
/// leading `prefix_len` bits match; an address of the other family never does.
#[verifier::external_body]
pub(crate) fn block_contains(block: &Cidr, ip: &IpAddress) -> (r: bool)
    requires
        block.wf(),
    ensures
        r == block.holds(*ip),
{
    let base = match block.addr {
        IpAddress::V4(v) => core::net::IpAddr::V4(v.into()),
        IpAddress::V6(v) => core::net::IpAddr::V6(v.into()),
    };
    let addr = match *ip {
        IpAddress::V4(v) => core::net::IpAddr::V4(v.into()),
        IpAddress::V6(v) => core::net::IpAddr::V6(v.into()),
    };
    ipnet::IpNet::new_assert(base, block.prefix_len).contains(&addr)
}

} // verus!
