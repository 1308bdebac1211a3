//! Client addresses and their per-URL access records.
use vstd::prelude::*;
use crate::clock::Timestamp;

verus! {

/// An IP address: four bytes for IPv4, sixteen for IPv6, most significant
/// first.
#[derive(Copy, Clone, Debug, PartialEq, Eq)]
pub enum IpAddress {
    V4([u8; 4]),
    V6([u8; 16]),
}

/// An IP network: an address and the number of leading bits that identify
/// the network.
#[derive(Copy, Clone, Debug, PartialEq, Eq)]
pub struct IpNet {
    pub addr: IpAddress,
    pub prefix: u8,
}

/// Number of bits in an address of the family of `addr`.
pub open spec fn address_bits(addr: IpAddress) -> int {
    match addr {
        IpAddress::V4(_) => 32,
        IpAddress::V6(_) => 128,
    }
}

impl IpNet {
    /// The prefix is no longer than the address.
    pub open spec fn wf(self) -> bool {
        self.prefix <= address_bits(self.addr)
    }

    /// The network holds exactly one host: the prefix spans the whole
    /// address.
    pub open spec fn is_single_host(self) -> bool {
        self.prefix == address_bits(self.addr)
    }
}

/// The prefix length of a network that holds `ip_addr` alone: 32 for IPv4,
/// 128 for IPv6.
pub fn single_host_prefix(ip_addr: &IpAddress) -> (prefix: u8)
    ensures
        prefix == address_bits(*ip_addr),
{
    match ip_addr {
        IpAddress::V4(_) => 32,
        IpAddress::V6(_) => 128,
    }
}

/// The single-host network of a peer's address, under which its accesses
/// are recorded.
pub fn socket_addr_to_ip_network(socket_addr: &IpAddress) -> (net: IpNet)
    ensures
        net.addr == *socket_addr,
        net.is_single_host(),
        net.wf(),
{
    let ip = *socket_addr;
    IpNet { addr: ip, prefix: single_host_prefix(&ip) }
}

/// The record of a client's accesses to one URL (one row of the `ips`
/// table): when the current window started, when the last access came and
/// how many accesses the window holds.
#[derive(Debug, Clone)]
pub struct Ip {
    pub id: i32,
    pub ip: IpNet,
    pub url_path: String,
    pub first_access: Timestamp,
    pub last_access: Timestamp,
    pub access_count: i32,
}

impl Ip {
    /// Both instants of the record are well formed.
    pub open spec fn wf(self) -> bool {
        self.first_access.wf() && self.last_access.wf()
    }
}

/// An access record as inserted into the `ips` table.
#[derive(Debug, Clone)]
pub struct NewIp {
    pub ip: IpNet,
    pub first_access: Timestamp,
    pub last_access: Timestamp,
    pub url_path: String,
    pub access_count: i32,
}

/// An access record as exchanged with clients.
pub struct IpData {
    pub ip: IpNet,
    pub first_access: Timestamp,
    pub last_access: Timestamp,
    pub url_path: String,
    pub access_count: i32,
}

/// Request to record the first access of a client to a URL.
pub struct CreateIp {
    pub ip: IpNet,
    pub access: Timestamp,
    pub url_path: String,
}

/// Request to count one more access in the current window of record `id`.
#[derive(Copy, Clone, Debug, PartialEq, Eq)]
pub struct NewAccess {
    pub id: i32,
    pub access: Timestamp,
}

/// Request to start a new window, holding one access, in record `id`.
#[derive(Copy, Clone, Debug, PartialEq, Eq)]
pub struct ResetAccess {
    pub id: i32,
    pub access: Timestamp,
}

/// Request to delete record `id`.
#[derive(Copy, Clone, Debug, PartialEq, Eq)]
pub struct DeleteIp {
    pub id: i32,
}

/// Request for all access records.
#[derive(Copy, Clone, Debug, PartialEq, Eq)]
pub struct GetIps;

/// Request for the record of `ip` on `url_path`.
pub struct GetIp {
    pub ip: IpNet,
    pub url_path: String,
}

/// Request for the record of `ip` on `url_path` together with its URL.
pub struct GetIpUrl {
    pub ip: IpNet,
    pub url_path: String,
}

impl CreateIp {
    /// The row stored for a first access: the window starts and ends at
    /// the access and holds one access.
    pub fn into_new_ip(self) -> (row: NewIp)
        ensures
            row.ip == self.ip,
            row.first_access == self.access,
            row.last_access == self.access,
            row.url_path == self.url_path,
            row.access_count == 1,
    {
        NewIp {
            ip: self.ip,
            first_access: self.access,
            last_access: self.access,
            url_path: self.url_path,
            access_count: 1,
        }
    }
}

} // verus!
