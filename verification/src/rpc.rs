//! Request and response messages of the control-plane RPC surface.
//!
//! One request/response pair per operation; the façade validates the
//! caller-supplied values and maps orchestrator results one to one onto
//! these messages.

use vstd::prelude::*;

verus! {

/// One requested port mapping, as it arrives from a caller: the protocol
/// by name and the ports as raw 32-bit numbers still to be validated.
#[derive(Clone, Debug)]
pub struct PortMappingRequest {
    pub protocol: String,
    pub host_port: u32,
    pub vm_port: u32,
}

/// A request to create a VM.
#[derive(Clone, Debug)]
pub struct VmConfiguration {
    /// Display name; alphanumeric, `-` and `_` only.
    pub name: String,
    /// Name of the image set to boot from.
    pub image: String,
    /// The compose specification, byte for byte.
    pub compose_file: String,
    pub vcpu: u32,
    pub memory: u32,
    pub disk_size: u32,
    /// Requested port mappings; must be empty unless port mapping is
    /// enabled on the host.
    pub ports: Vec<PortMappingRequest>,
    /// Encrypted environment blob; empty means none.
    pub encrypted_env: Vec<u8>,
    /// Explicit application id; overrides the derived one when supplied.
    pub app_id: Option<String>,
}

/// An instance id carried in requests and responses.
#[derive(Clone, Debug)]
pub struct Id {
    pub id: String,
}

/// A request to change the declared resources of a stopped instance.
#[derive(Clone, Debug)]
pub struct ResizeVmRequest {
    pub id: String,
    /// New vcpu count, if it is to change.
    pub vcpu: Option<u32>,
    /// New memory size in MB, if it is to change.
    pub memory: Option<u32>,
    /// New declared disk size in GB, if it is to change.  The recorded
    /// value only; actual storage reallocation is out of scope.
    pub disk_size: Option<u32>,
}

/// A request to replace an instance's stored compose specification
/// and/or encrypted environment.
#[derive(Clone, Debug)]
pub struct UpgradeAppRequest {
    pub id: String,
    /// New compose specification; empty means unchanged.
    pub compose_file: String,
    /// New encrypted environment blob; empty means unchanged.
    pub encrypted_env: Vec<u8>,
}

/// Summary of one instance as reported by `status` and `get_info`.
#[derive(Clone, Debug)]
pub struct VmInfo {
    pub id: String,
    pub name: String,
    /// `"running"` or `"stopped"`.
    pub status: String,
    pub app_id: String,
}

/// The full status report: one summary per existing instance, and
/// whether port mapping is enabled on this host.
#[derive(Clone, Debug)]
pub struct StatusResponse {
    pub vms: Vec<VmInfo>,
    pub port_mapping_enabled: bool,
}

/// One image as listed by `list_images`.
#[derive(Clone, Debug)]
pub struct ImageListEntry {
    pub name: String,
    pub description: String,
}

/// The list of bootable images.
#[derive(Clone, Debug)]
pub struct ImageListResponse {
    pub images: Vec<ImageListEntry>,
}

/// Lookup result for one instance id.
#[derive(Clone, Debug)]
pub struct GetInfoResponse {
    pub found: bool,
    pub info: Option<VmInfo>,
}

/// KMS collaborator settings advertised by `get_meta`.
#[derive(Clone, Debug)]
pub struct KmsSettings {
    pub url: String,
}

/// Gateway settings advertised by `get_meta`.
#[derive(Clone, Debug)]
pub struct TProxySettings {
    pub url: String,
    pub base_domain: String,
    pub port: u32,
    pub tappd_port: u32,
}

/// Resource ceilings advertised by `get_meta`.
#[derive(Clone, Debug)]
pub struct ResourcesSettings {
    pub max_cvm_number: u32,
    pub max_allocable_vcpu: u32,
    pub max_allocable_memory_in_mb: u32,
    pub max_disk_size_in_gb: u32,
}

/// Host metadata: collaborator endpoints and resource ceilings.
#[derive(Clone, Debug)]
pub struct GetMetaResponse {
    pub kms: KmsSettings,
    pub tproxy: TProxySettings,
    pub resources: ResourcesSettings,
}

} // verus!
