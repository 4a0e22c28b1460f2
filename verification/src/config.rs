//! Host configuration consumed by the control plane.
//!
//! The configuration is assembled by the surrounding program and handed to
//! the library as one fully-resolved value; the library itself never reads
//! configuration files.  The port-mapping policy (`PortMappingConfig`) gates
//! which `(protocol, port)` pairs the host is willing to forward at all.

use vstd::prelude::*;

use crate::error::VmmError;

verus! {

/// A transport protocol a forwarded port can use.
#[derive(Clone, Copy, Debug, PartialEq, Eq, Structural)]
pub enum Protocol {
    Tcp,
    Udp,
}

impl Protocol {
    /// The lowercase wire name of the protocol.
    pub fn as_str(&self) -> (r: &'static str)
        ensures
            r@ == self.spec_str(),
    {
        match self {
            Protocol::Tcp => "tcp",
            Protocol::Udp => "udp",
        }
    }

    /// What `as_str` returns for each protocol.
    pub open spec fn spec_str(self) -> Seq<char> {
        match self {
            Protocol::Tcp => "tcp"@,
            Protocol::Udp => "udp"@,
        }
    }

    /// The protocol named by `s`, if any: `"tcp"` or `"udp"`, nothing else.
    pub open spec fn spec_of_str(s: Seq<char>) -> Option<Protocol> {
        if s == "tcp"@ {
            Some(Protocol::Tcp)
        } else if s == "udp"@ {
            Some(Protocol::Udp)
        } else {
            None
        }
    }

    /// Parses the wire name of a protocol; anything but `"tcp"` or `"udp"`
    /// is rejected as a validation error.
    pub fn from_str(s: &str) -> (r: Result<Protocol, VmmError>)
        ensures
            match Self::spec_of_str(s@) {
                Some(p) => r == Ok::<Protocol, VmmError>(p),
                None => r == Err::<Protocol, VmmError>(VmmError::Validation),
            },
    {
        if crate::strutil::str_eq(s, "tcp") {
            Ok(Protocol::Tcp)
        } else if crate::strutil::str_eq(s, "udp") {
            Ok(Protocol::Udp)
        } else {
            Err(VmmError::Validation)
        }
    }
}

/// A contiguous range of host ports the policy allows for one protocol.
#[derive(Clone, Debug)]
pub struct PortRange {
    pub protocol: Protocol,
    pub from: u16,
    pub to: u16,
}

impl PortRange {
    /// Whether this range admits `port` under the protocol named `protocol`.
    pub open spec fn spec_contains(self, protocol: Seq<char>, port: u16) -> bool {
        self.protocol.spec_str() == protocol && self.from <= port && port <= self.to
    }

    /// Whether this range admits `port` under the protocol named `protocol`.
    pub fn contains(&self, protocol: &str, port: u16) -> (r: bool)
        ensures
            r == self.spec_contains(protocol@, port),
    {
        crate::strutil::str_eq(self.protocol.as_str(), protocol) && port >= self.from
            && port <= self.to
    }
}

/// The host's port-forwarding policy: a global switch, the bind address
/// used for every mapping, and the ranges the host is willing to forward.
#[derive(Clone, Debug)]
pub struct PortMappingConfig {
    pub enabled: bool,
    pub address: String,
    pub range: Vec<PortRange>,
}

impl PortMappingConfig {
    /// Whether the policy admits `port` under the protocol named `protocol`:
    /// the feature must be enabled and some configured range must contain
    /// the pair.
    pub open spec fn spec_is_allowed(self, protocol: Seq<char>, port: u16) -> bool {
        self.enabled && exists|i: int|
            0 <= i < self.range@.len() && (#[trigger] self.range@[i]).spec_contains(protocol, port)
    }

    /// Whether the policy admits `port` under the protocol named `protocol`.
    pub fn is_allowed(&self, protocol: &str, port: u16) -> (r: bool)
        ensures
            r == self.spec_is_allowed(protocol@, port),
    {
        if !self.enabled {
            return false;
        }
        let n = self.range.len();
        let mut i: usize = 0;
        while i < n
            invariant
                self.enabled,
                n == self.range@.len(),
                0 <= i <= n,
                forall|j: int|
                    0 <= j < i ==> !(#[trigger] self.range@[j]).spec_contains(protocol@, port),
            decreases n - i,
        {
            if self.range[i].contains(protocol, port) {
                assert((self.range@[i as int]).spec_contains(protocol@, port));
                return true;
            }
            i = i + 1;
        }
        false
    }
}

/// Settings of the confidential VMs themselves: trust material dropped into
/// each instance's shared directory, collaborator URLs baked into the guest
/// config, the CID pool, the port policy, and advertised resource ceilings.
#[derive(Clone, Debug)]
pub struct CvmConfig {
    /// Path of the CA certificate copied into each instance.
    pub ca_cert: String,
    /// Path of the temporary CA certificate copied into each instance.
    pub tmp_ca_cert: String,
    /// Path of the temporary CA key copied into each instance.
    pub tmp_ca_key: String,
    /// The URL of the KMS server handed to the guest.
    pub kms_url: String,
    /// The URL of the TProxy server handed to the guest.
    pub tproxy_url: String,
    /// The URL of the Docker registry handed to the guest.
    pub docker_registry: String,
    /// The maximum disk size in GB.
    pub max_disk_size: u32,
    /// The first CID of the pool that allocates CIDs to VMs.
    pub cid_start: u32,
    /// The number of CIDs in the pool.
    pub cid_pool_size: u32,
    /// Port mapping policy.
    pub port_mapping: PortMappingConfig,
    /// Maximum vcpus one instance may be given.
    pub max_allocable_vcpu: u32,
    /// Maximum memory in MB one instance may be given.
    pub max_allocable_memory_in_mb: u32,
}

impl CvmConfig {
    /// The CID pool must fit in the `u32` range.
    pub open spec fn wf(self) -> bool {
        self.cid_start + self.cid_pool_size <= u32::MAX
    }
}

/// API-token authentication settings.
#[derive(Clone, Debug)]
pub struct AuthConfig {
    /// Whether API token authentication is enabled.
    pub enabled: bool,
    /// The accepted API tokens.
    pub tokens: Vec<String>,
}

/// Where the process supervisor lives on the host.
#[derive(Clone, Debug)]
pub struct SupervisorConfig {
    pub exe: String,
    pub sock: String,
    pub pid_file: String,
    pub log_file: String,
}

/// The gateway the guests are reachable through.
#[derive(Clone, Debug)]
pub struct GatewayConfig {
    pub base_domain: String,
    pub port: u16,
    pub tappd_port: u16,
}

/// Guest networking handled by the hypervisor's user-mode stack.
#[derive(Clone, Debug)]
pub struct UserNetworking {
    pub net: String,
    pub dhcp_start: String,
    pub restrict: bool,
}

/// Guest networking attached to a preconfigured host network device.
#[derive(Clone, Debug)]
pub struct CustomNetworking {
    pub netdev: String,
}

/// How guests are networked.
#[derive(Clone, Debug)]
pub enum Networking {
    User(UserNetworking),
    Custom(CustomNetworking),
}

/// The fully-resolved host configuration the control plane runs with.
#[derive(Clone, Debug)]
pub struct Config {
    /// Directory the immutable image sets live under.
    pub image_path: String,
    /// Directory the per-instance work directories live under.
    pub run_path: String,
    /// Path of the hypervisor binary.
    pub qemu_path: String,
    /// The URL of the KMS server the control plane itself proxies to.
    pub kms_url: String,
    /// Confidential-VM settings.
    pub cvm: CvmConfig,
    /// Gateway settings.
    pub gateway: GatewayConfig,
    /// Networking settings.
    pub networking: Networking,
    /// Authentication settings.
    pub auth: AuthConfig,
    /// Supervisor settings.
    pub supervisor: SupervisorConfig,
}

impl Config {
    /// The parts of the configuration the allocator arithmetic relies on.
    pub open spec fn wf(self) -> bool {
        self.cvm.wf()
    }
}

} // verus!
