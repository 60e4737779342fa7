//! The metadata service that network devices can expose to the guest.

use vstd::prelude::*;

verus! {

/// Version of the protocol that the metadata service speaks.
#[derive(Clone, Copy, Debug, PartialEq, Eq, Structural)]
pub enum MmdsVersion {
    /// Plain requests.
    V1,
    /// Session tokens.
    V2,
}

/// The metadata service of a machine. Every network device that exposes the service
/// refers to the same one.
#[derive(Clone, Copy, Debug, PartialEq, Eq, Structural)]
pub struct Mmds {
    /// Version of the protocol.
    pub version: MmdsVersion,
    /// Whether the service answers as the instance metadata service of a cloud does.
    pub imds_compat: bool,
}

/// The address 169.254.169.254, at which the service answers unless told otherwise.
pub const DEFAULT_IPV4_ADDR: u32 = 0xa9fe_a9fe;

/// The network stack through which one network device exposes the metadata service.
#[derive(Clone, Copy, Debug, PartialEq, Eq, Structural)]
pub struct MmdsNetworkStack {
    /// IPv4 address at which the service answers.
    pub ipv4_addr: u32,
    /// The service behind the stack.
    pub mmds: Mmds,
}

impl Mmds {
    /// The service as it is when nothing was configured: version 1, no compatibility.
    pub fn default_config() -> (mmds: Self)
        ensures
            mmds == (Mmds { version: MmdsVersion::V1, imds_compat: false }),
    {
        Mmds { version: MmdsVersion::V1, imds_compat: false }
    }

    /// Version of the protocol.
    pub fn version(&self) -> (v: MmdsVersion)
        ensures
            v == self.version,
    {
        self.version
    }

    /// Whether the service answers as the instance metadata service of a cloud does.
    pub fn imds_compat(&self) -> (c: bool)
        ensures
            c == self.imds_compat,
    {
        self.imds_compat
    }
}

impl MmdsNetworkStack {
    /// The address at which the service answers unless told otherwise.
    pub fn default_ipv4_addr() -> (addr: u32)
        ensures
            addr == DEFAULT_IPV4_ADDR,
    {
        DEFAULT_IPV4_ADDR
    }
}

} // verus!
