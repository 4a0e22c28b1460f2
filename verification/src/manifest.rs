//! The durable description of one VM instance.
//!
//! A manifest is created once when the instance is created, persisted
//! immediately, mutated only by resize (and only in its resource
//! quantities), and deleted together with the instance's work directory.

use vstd::prelude::*;

use crate::config::Protocol;

verus! {

/// One forwarded port of an instance: the host bind address, the
/// protocol, the host port and the guest port.
#[derive(Clone, Debug)]
pub struct PortMapping {
    pub address: String,
    pub protocol: Protocol,
    pub from: u16,
    pub to: u16,
}

/// The authoritative record of one VM instance.
///
/// The instance id and the application id are immutable once created; the
/// resource quantities (`vcpu`, `memory`, `disk_size`) are the only fields
/// mutable after creation, via resize.
#[derive(Clone, Debug)]
pub struct Manifest {
    /// Opaque, globally unique instance id, generated at creation and
    /// never reused.
    pub id: String,
    /// Display name; alphanumeric, `-` and `_` only.  Not required to be
    /// unique across instances.
    pub name: String,
    /// Application id shared by all instances of the same logical
    /// application.
    pub app_id: String,
    /// Name of the immutable image set the instance boots from.
    pub image: String,
    /// Number of virtual CPUs.
    pub vcpu: u32,
    /// Memory size in MB.
    pub memory: u32,
    /// Declared disk size in GB.
    pub disk_size: u32,
    /// Ordered list of forwarded ports.
    pub port_map: Vec<PortMapping>,
    /// Creation timestamp in milliseconds since the epoch.
    pub created_at_ms: u64,
}

} // verus!
