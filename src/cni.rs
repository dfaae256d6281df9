use crate::allocator::ConsulError;
use crate::net::Subnet;
use std::collections::BTreeMap;
use vstd::prelude::*;

verus! {

/// An address together with a prefix length, as a gateway or a name server
/// is written (`10.0.0.254/24`).
#[derive(Clone, Copy)]
pub struct Inet {
    pub address: u32,
    pub length: u8,
}

/// A route handed through from the configuration to the response.
pub struct Route {
    pub dst: Subnet,
    pub gw: Option<Inet>,
}

/// Name-server settings handed through from the configuration to the response.
pub struct DnsConfig {
    pub nameservers: Vec<Inet>,
    pub domain: Option<String>,
    pub search: Vec<String>,
    pub options: Vec<String>,
}

/// The address-management part of the network configuration.
pub struct ConsulIpamConfig {
    pub plugin_type: String,
    pub path: Option<String>,
    pub subnet: Subnet,
    pub gateway: Inet,
    pub routes: Vec<Route>,
}

/// The network configuration that the container runtime hands over.
pub struct CniConfig {
    pub plugin_type: String,
    pub name: String,
    pub args: BTreeMap<String, String>,
    pub ipam: ConsulIpamConfig,
    pub dns: Option<DnsConfig>,
}

/// One request from a plugin invocation to the daemon.
pub struct CniRequest {
    pub command: String,
    pub container_id: String,
    pub netns: String,
    pub ifname: String,
    pub args: Option<String>,
    pub path: String,
    pub config: CniConfig,
}

/// One address entry of a response.
pub struct IpResponse {
    pub version: String,
    pub address: Subnet,
    pub gateway: Option<Inet>,
    pub interface: Option<u32>,
}

/// The answer to an ADD.
pub struct IpamResponse {
    pub cni_version: String,
    pub ips: Vec<IpResponse>,
    pub routes: Vec<Route>,
    pub dns: Option<DnsConfig>,
}

/// The protocol version that responses carry.
pub open spec fn cni_version_text() -> Seq<char> {
    seq!['v', '0', '.', '4', '.', '0']
}

impl IpamResponse {
    pub fn new(ips: Vec<IpResponse>, routes: Vec<Route>, dns: Option<DnsConfig>) -> (r: IpamResponse)
        ensures
            r.cni_version@ == cni_version_text(),
            r.ips == ips,
            r.routes == routes,
            r.dns == dns,
    {
        proof { reveal_strlit("v0.4.0"); }
        IpamResponse { cni_version: String::from_str("v0.4.0"), ips, routes, dns }
    }
}

/// The two commands of the container runtime.
#[derive(Debug, Clone, Copy, PartialEq, Eq, Structural)]
pub enum Command {
    Add,
    Del,
}

/// Whether `s` is the lower-case word `w` in any mix of cases.
pub open spec fn is_word_ci(s: Seq<char>, w: Seq<char>) -> bool {
    &&& s.len() == w.len()
    &&& forall|i: int|
        0 <= i < s.len() ==> s[i] == w[i] || ('A' <= s[i] <= 'Z' && s[i] as u32 + 32 == w[i] as u32)
}

pub open spec fn add_word() -> Seq<char> {
    seq!['a', 'd', 'd']
}

pub open spec fn del_word() -> Seq<char> {
    seq!['d', 'e', 'l']
}

fn char_matches(c: char, w: char) -> (r: bool)
    ensures
        r == (c == w || ('A' <= c <= 'Z' && c as u32 + 32 == w as u32)),
{
    c == w || ('A' <= c && c <= 'Z' && (c as u32) + 32 == w as u32)
}

fn is_word(s: &str, w: &str) -> (r: bool)
    ensures
        r == is_word_ci(s@, w@),
{
    let n = s.unicode_len();
    if n != w.unicode_len() {
        return false;
    }
    let mut i: usize = 0;
    while i < n
        invariant
            n == s@.len() == w@.len(),
            i <= n,
            forall|k: int|
                0 <= k < i ==> s@[k] == w@[k] || ('A' <= s@[k] <= 'Z' && s@[k] as u32 + 32
                    == w@[k] as u32),
        decreases n - i,
    {
        if !char_matches(s.get_char(i), w.get_char(i)) {
            return false;
        }
        i = i + 1;
    }
    true
}

/// The command that `s` names, in any mix of cases; anything else is a bad
/// request.
pub fn parse_command(s: &str) -> (r: Result<Command, ConsulError>)
    ensures
        is_word_ci(s@, add_word()) ==> r == Ok::<Command, ConsulError>(Command::Add),
        is_word_ci(s@, del_word()) ==> r == Ok::<Command, ConsulError>(Command::Del),
        !is_word_ci(s@, add_word()) && !is_word_ci(s@, del_word()) ==> r == Err::<
            Command,
            ConsulError,
        >(ConsulError::BadRequest),
{
    proof {
        reveal_strlit("add");
        reveal_strlit("del");
    }
    if is_word(s, "add") {
        Ok(Command::Add)
    } else if is_word(s, "del") {
        Ok(Command::Del)
    } else {
        Err(ConsulError::BadRequest)
    }
}

/// The name under which a request's leases are kept: the configured path
/// where there is one, else the network's name.
pub open spec fn network_of(config: CniConfig) -> Seq<char> {
    match config.ipam.path {
        Some(p) => p@,
        None => config.name@,
    }
}

/// The name under which the leases of `req` are kept.
pub fn request_network(req: &CniRequest) -> (r: String)
    ensures
        r@ == network_of(req.config),
{
    match &req.config.ipam.path {
        Some(p) => p.clone(),
        None => req.config.name.clone(),
    }
}

/// The answer to an ADD that was given `addr`: one address entry holding it as
/// a single-address network with the configured gateway, and the configured
/// routes and name servers.
pub fn add_response(req: CniRequest, addr: u32) -> (r: IpamResponse)
    ensures
        r.cni_version@ == cni_version_text(),
        r.ips@.len() == 1,
        r.ips@[0].version@ == seq!['4'],
        r.ips@[0].address.first() == addr,
        r.ips@[0].address.prefix() == 32,
        r.ips@[0].gateway == Some(req.config.ipam.gateway),
        r.ips@[0].interface is None,
        r.routes == req.config.ipam.routes,
        r.dns == req.config.dns,
{
    proof { reveal_strlit("4"); }
    let ip = IpResponse {
        version: String::from_str("4"),
        address: Subnet::new_host(addr),
        gateway: Some(req.config.ipam.gateway),
        interface: None,
    };
    let mut ips = Vec::new();
    ips.push(ip);
    IpamResponse::new(ips, req.config.ipam.routes, req.config.dns)
}

} // verus!
