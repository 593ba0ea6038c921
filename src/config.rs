use vstd::prelude::*;

verus! {

/// Most name servers that a static address configuration can list.
pub const MAX_DNS_SERVERS: usize = 3;

/// Longest prefix of an IPv4 network, in bits.
pub const MAX_PREFIX_LEN: u8 = 32;

/// An IPv4 address as its four octets, most significant first.
#[derive(Clone, Copy, Debug, PartialEq, Eq, Structural)]
pub struct Ipv4Address {
    pub a: u8,
    pub b: u8,
    pub c: u8,
    pub d: u8,
}

impl Ipv4Address {
    pub fn new(a: u8, b: u8, c: u8, d: u8) -> (r: Self)
        ensures
            r.a == a && r.b == b && r.c == c && r.d == d,
    {
        Ipv4Address { a, b, c, d }
    }
}

/// The fixed remote end of the discovery connection.
#[derive(Clone, Copy, Debug, PartialEq, Eq, Structural)]
pub struct ConnectionEndpoint {
    pub address: Ipv4Address,
    pub port: u16,
}

impl ConnectionEndpoint {
    pub fn new(address: Ipv4Address, port: u16) -> (r: Self)
        ensures
            r.address == address,
            r.port == port,
    {
        ConnectionEndpoint { address, port }
    }
}

/// Name and passphrase of the wireless network.
#[derive(Debug)]
pub struct NetworkCredentials {
    pub network: String,
    pub secret: String,
}

impl NetworkCredentials {
    pub fn new(network: String, secret: String) -> (r: Self)
        ensures
            r.network@ == network@,
            r.secret@ == secret@,
    {
        NetworkCredentials { network, secret }
    }
}

/// A fixed IPv4 configuration: no address is asked of the network.
#[derive(Debug)]
pub struct StaticAddressConfig {
    pub address: Ipv4Address,
    pub prefix_len: u8,
    pub gateway: Option<Ipv4Address>,
    pub dns_servers: Vec<Ipv4Address>,
}

/// Whether a configuration with these parts can be made.
pub open spec fn valid_static_config(prefix_len: u8, dns_count: nat) -> bool {
    prefix_len <= MAX_PREFIX_LEN && dns_count <= MAX_DNS_SERVERS
}

impl StaticAddressConfig {
    pub open spec fn wf(&self) -> bool {
        valid_static_config(self.prefix_len, self.dns_servers@.len())
    }

    /// The configuration, or `None` where the prefix is longer than 32 bits
    /// or more than `MAX_DNS_SERVERS` name servers are given.
    pub fn new(
        address: Ipv4Address,
        prefix_len: u8,
        gateway: Option<Ipv4Address>,
        dns_servers: Vec<Ipv4Address>,
    ) -> (r: Option<Self>)
        ensures
            r is Some <==> valid_static_config(prefix_len, dns_servers@.len()),
            r matches Some(c) ==> {
                &&& c.address == address
                &&& c.prefix_len == prefix_len
                &&& c.gateway == gateway
                &&& c.dns_servers@ == dns_servers@
                &&& c.wf()
            },
    {
        if prefix_len > MAX_PREFIX_LEN || dns_servers.len() > MAX_DNS_SERVERS {
            None
        } else {
            Some(StaticAddressConfig { address, prefix_len, gateway, dns_servers })
        }
    }
}

} // verus!
