//! Lifecycle orchestrator and control-plane façade.
//!
//! The in-memory `App` state mirrors the durable truth exactly: one
//! `VmInstance` per existing work directory, plus the resource pool
//! rebuilt from those records.  Every operation states in its contract
//! which records and which pool claims it touches; the surrounding
//! program performs the matching file writes and backend calls and keeps
//! the durable copy in step, one orchestration step at a time.

use vstd::prelude::*;
use vstd::string::*;

use crate::compose::{spec_compose_upgradable, validate_app_compose};
use crate::config::{Config, PortMappingConfig, Protocol};
use crate::error::VmmError;
use crate::ident::{app_id_of, spec_app_id};
use crate::manifest::{Manifest, PortMapping};
use crate::pool::{PortClaim, ResourcePool};
use crate::rpc::{
    GetInfoResponse, GetMetaResponse, Id, ImageListEntry, ImageListResponse, KmsSettings,
    PortMappingRequest, ResizeVmRequest, ResourcesSettings, StatusResponse, TProxySettings,
    UpgradeAppRequest, VmConfiguration, VmInfo,
};
use crate::strutil::{char_is_alphanumeric, is_alphanumeric_char, str_eq};

verus! {

/// Run state of an instance as last reported by the VM runtime backend.
#[derive(Clone, Copy, Debug, PartialEq, Eq, Structural)]
pub enum VmStatus {
    Running,
    Stopped,
}

impl VmStatus {
    /// The lowercase name of the state.
    pub fn as_str(&self) -> (r: &'static str)
        ensures
            r@ == self.spec_str(),
    {
        match self {
            VmStatus::Running => "running",
            VmStatus::Stopped => "stopped",
        }
    }

    /// What `as_str` returns for each state.
    pub open spec fn spec_str(self) -> Seq<char> {
        match self {
            VmStatus::Running => "running"@,
            VmStatus::Stopped => "stopped"@,
        }
    }
}

/// Metadata of one immutable image set the host can boot instances from.
#[derive(Clone, Debug)]
pub struct ImageInfo {
    /// Directory name of the image set.
    pub name: String,
    /// Hex digest of the image's root filesystem, if the image declares
    /// one; instances cannot be created from an image without it.
    pub rootfs_hash: Option<String>,
}

/// The generated guest boot configuration dropped into an instance's
/// shared directory.
#[derive(Clone, Debug)]
pub struct VmConfigFile {
    pub rootfs_hash: String,
    pub kms_url: String,
    pub tproxy_url: String,
    pub docker_registry: String,
}

/// The per-instance identity stamp, written only when the caller supplied
/// an explicit application id.
#[derive(Clone, Debug)]
pub struct InstanceInfo {
    pub app_id: String,
}

/// One live instance: the manifest plus everything else its work
/// directory holds.
#[derive(Clone, Debug)]
pub struct VmInstance {
    /// The durable manifest.
    pub manifest: Manifest,
    /// The CID assigned to this instance.
    pub cid: u32,
    /// The compose specification, byte for byte as supplied.
    pub compose_file: String,
    /// The encrypted environment blob, when one was supplied.
    pub encrypted_env: Option<Vec<u8>>,
    /// The generated guest boot configuration.
    pub vm_config: VmConfigFile,
    /// The identity stamp, when an explicit application id was supplied.
    pub instance_info: Option<InstanceInfo>,
    /// The persisted "should be running" flag used for restart recovery.
    pub started: bool,
    /// Run state as last reported by the backend.
    pub status: VmStatus,
}

/// The whole control-plane state: configuration, resource pool, known
/// images, and one record per existing work directory.
#[derive(Clone, Debug)]
pub struct App {
    pub config: Config,
    pub pool: ResourcePool,
    pub images: Vec<ImageInfo>,
    pub instances: Vec<VmInstance>,
}

/// The pool claim a recorded port mapping stands for.
pub open spec fn spec_port_claim(m: PortMapping) -> PortClaim {
    PortClaim { protocol: m.protocol, port: m.from }
}

impl App {
    /// The claim of port `k` of instance `i`.
    pub open spec fn inst_claim(self, i: int, k: int) -> PortClaim {
        spec_port_claim(self.instances@[i].manifest.port_map@[k])
    }

    /// Whether `(i, k)` addresses a recorded port mapping.
    pub open spec fn claim_index_ok(self, i: int, k: int) -> bool {
        0 <= i < self.instances@.len() && 0 <= k < self.instances@[i].manifest.port_map@.len()
    }

    /// No two instances share an id.
    pub open spec fn ids_distinct(self) -> bool {
        forall|i: int, j: int|
            #![trigger self.instances@[i], self.instances@[j]]
            0 <= i < j < self.instances@.len() ==> self.instances@[i].manifest.id@
                != self.instances@[j].manifest.id@
    }

    /// No two instances share a CID.
    pub open spec fn cids_distinct(self) -> bool {
        forall|i: int, j: int|
            #![trigger self.instances@[i].cid, self.instances@[j].cid]
            0 <= i < j < self.instances@.len() ==> self.instances@[i].cid
                != self.instances@[j].cid
    }

    /// Every instance's CID is recorded as claimed in the pool.
    pub open spec fn cids_claimed(self) -> bool {
        forall|i: int|
            0 <= i < self.instances@.len() ==> self.pool.cid_claimed(
                #[trigger] self.instances@[i].cid,
            )
    }

    /// Every recorded port mapping is recorded as claimed in the pool.
    pub open spec fn ports_claimed(self) -> bool {
        forall|i: int, k: int|
            self.claim_index_ok(i, k) ==> self.pool.port_claimed(#[trigger] self.inst_claim(i, k))
    }

    /// No two recorded port mappings stand for the same claim.
    pub open spec fn port_claims_distinct(self) -> bool {
        forall|i: int, k: int, j: int, l: int|
            #![trigger self.inst_claim(i, k), self.inst_claim(j, l)]
            self.claim_index_ok(i, k) && self.claim_index_ok(j, l) && (i != j || k != l)
                ==> self.inst_claim(i, k) != self.inst_claim(j, l)
    }

    /// No two images share a name.
    pub open spec fn images_distinct(self) -> bool {
        forall|i: int, j: int|
            #![trigger self.images@[i], self.images@[j]]
            0 <= i < j < self.images@.len() ==> self.images@[i].name@ != self.images@[j].name@
    }

    /// The state invariant every operation preserves: the pool matches
    /// the configured CID range, and the pool's claims agree exactly
    /// with what the instance records hold.
    pub open spec fn wf(self) -> bool {
        &&& self.config.wf()
        &&& self.pool.wf()
        &&& self.pool.cid_start == self.config.cvm.cid_start
        &&& self.pool.cid_pool_size == self.config.cvm.cid_pool_size
        &&& self.ids_distinct()
        &&& self.cids_distinct()
        &&& self.cids_claimed()
        &&& self.ports_claimed()
        &&& self.port_claims_distinct()
        &&& self.images_distinct()
    }

    /// Whether an instance with this id exists.
    pub open spec fn spec_has_vm(self, id: Seq<char>) -> bool {
        exists|i: int|
            0 <= i < self.instances@.len() && (#[trigger] self.instances@[i]).manifest.id@ == id
    }

    /// The index of the instance with this id (meaningful when
    /// `spec_has_vm` holds and ids are distinct).
    pub open spec fn spec_vm_index(self, id: Seq<char>) -> int {
        choose|i: int|
            0 <= i < self.instances@.len() && (#[trigger] self.instances@[i]).manifest.id@ == id
    }

    /// Whether an image with this name is known.
    pub open spec fn spec_has_image(self, name: Seq<char>) -> bool {
        exists|i: int|
            0 <= i < self.images@.len() && (#[trigger] self.images@[i]).name@ == name
    }

    /// The index of the image with this name (meaningful when
    /// `spec_has_image` holds and image names are distinct).
    pub open spec fn spec_image_index(self, name: Seq<char>) -> int {
        choose|i: int|
            0 <= i < self.images@.len() && (#[trigger] self.images@[i]).name@ == name
    }

    /// A fresh state: the given configuration and images, no instances,
    /// an empty pool over the configured CID range.
    pub fn init(config: Config, images: Vec<ImageInfo>) -> (r: App)
        requires
            config.wf(),
            forall|i: int, j: int|
                #![trigger images@[i], images@[j]]
                0 <= i < j < images@.len() ==> images@[i].name@ != images@[j].name@,
        ensures
            r.wf(),
            r.config == config,
            r.images@ == images@,
            r.instances@.len() == 0,
            forall|c: u32| !r.pool.cid_claimed(c),
            forall|p: PortClaim| !r.pool.port_claimed(p),
    {
        let pool = ResourcePool::new(config.cvm.cid_start, config.cvm.cid_pool_size);
        App { config, pool, images, instances: Vec::new() }
    }

    /// The index of the instance with this id, if any.
    pub fn find_vm_index(&self, id: &str) -> (r: Option<usize>)
        ensures
            r is Some <==> self.spec_has_vm(id@),
            r matches Some(i) ==> 0 <= i < self.instances@.len()
                && self.instances@[i as int].manifest.id@ == id@,
    {
        let n = self.instances.len();
        let mut i: usize = 0;
        while i < n
            invariant
                n == self.instances@.len(),
                0 <= i <= n,
                forall|j: int|
                    0 <= j < i ==> (#[trigger] self.instances@[j]).manifest.id@ != id@,
            decreases n - i,
        {
            if str_eq(self.instances[i].manifest.id.as_str(), id) {
                return Some(i);
            }
            i = i + 1;
        }
        None
    }

    /// The index of the image with this name, if any.
    pub fn find_image_index(&self, name: &str) -> (r: Option<usize>)
        ensures
            r is Some <==> self.spec_has_image(name@),
            r matches Some(i) ==> 0 <= i < self.images@.len()
                && self.images@[i as int].name@ == name@,
    {
        let n = self.images.len();
        let mut i: usize = 0;
        while i < n
            invariant
                n == self.images@.len(),
                0 <= i <= n,
                forall|j: int| 0 <= j < i ==> (#[trigger] self.images@[j]).name@ != name@,
            decreases n - i,
        {
            if str_eq(self.images[i].name.as_str(), name) {
                return Some(i);
            }
            i = i + 1;
        }
        None
    }
}

/// An instance found by id has exactly one index, and `spec_vm_index`
/// names it.
pub proof fn lemma_vm_index_unique(app: App, id: Seq<char>, i: int)
    requires
        app.ids_distinct(),
        0 <= i < app.instances@.len(),
        app.instances@[i].manifest.id@ == id,
    ensures
        app.spec_has_vm(id),
        app.spec_vm_index(id) == i,
{
    assert(app.spec_has_vm(id));
    let j = app.spec_vm_index(id);
    if i < j {
        assert(app.instances@[i].manifest.id@ != app.instances@[j].manifest.id@);
    } else if j < i {
        assert(app.instances@[j].manifest.id@ != app.instances@[i].manifest.id@);
    }
}

/// An image found by name has exactly one index, and `spec_image_index`
/// names it.
pub proof fn lemma_image_index_unique(app: App, name: Seq<char>, i: int)
    requires
        app.images_distinct(),
        0 <= i < app.images@.len(),
        app.images@[i].name@ == name,
    ensures
        app.spec_has_image(name),
        app.spec_image_index(name) == i,
{
    assert(app.spec_has_image(name));
    let j = app.spec_image_index(name);
    if i < j {
        assert(app.images@[i].name@ != app.images@[j].name@);
    } else if j < i {
        assert(app.images@[j].name@ != app.images@[i].name@);
    }
}

/// A state whose records are unchanged and whose pool claims are
/// pointwise unchanged is still well-formed.
pub proof fn lemma_wf_same_claims(o: App, f: App)
    requires
        o.wf(),
        f.config == o.config,
        f.images@ == o.images@,
        f.instances@ == o.instances@,
        f.pool.wf(),
        f.pool.cid_start == o.pool.cid_start,
        f.pool.cid_pool_size == o.pool.cid_pool_size,
        forall|c: u32| f.pool.cid_claimed(c) == o.pool.cid_claimed(c),
        forall|q: PortClaim| f.pool.port_claimed(q) == o.pool.port_claimed(q),
    ensures
        f.wf(),
{
    assert forall|i: int| 0 <= i < f.instances@.len() implies f.pool.cid_claimed(
        #[trigger] f.instances@[i].cid,
    ) by {
        assert(o.pool.cid_claimed(o.instances@[i].cid));
    }
    assert forall|i: int, k: int| f.claim_index_ok(i, k) implies f.pool.port_claimed(
        #[trigger] f.inst_claim(i, k),
    ) by {
        assert(f.inst_claim(i, k) == o.inst_claim(i, k));
        assert(o.pool.port_claimed(o.inst_claim(i, k)));
    }
    assert forall|i: int, k: int, j: int, l: int|
        f.claim_index_ok(i, k) && f.claim_index_ok(j, l) && (i != j || k != l) implies #[trigger] f.inst_claim(
        i,
        k,
    ) != #[trigger] f.inst_claim(j, l) by {
        assert(f.inst_claim(i, k) == o.inst_claim(i, k));
        assert(f.inst_claim(j, l) == o.inst_claim(j, l));
    }
}

/// A state with one record removed and exactly that record's claims
/// released is still well-formed.
pub proof fn lemma_wf_after_remove(o: App, f: App, vi: int)
    requires
        o.wf(),
        0 <= vi < o.instances@.len(),
        f.config == o.config,
        f.images@ == o.images@,
        f.instances@ == o.instances@.remove(vi),
        f.pool.wf(),
        f.pool.cid_start == o.pool.cid_start,
        f.pool.cid_pool_size == o.pool.cid_pool_size,
        forall|c: u32|
            f.pool.cid_claimed(c) <==> (o.pool.cid_claimed(c) && c != o.instances@[vi].cid),
        forall|q: PortClaim|
            f.pool.port_claimed(q) <==> (o.pool.port_claimed(q) && !(exists|k: int|
                0 <= k < o.instances@[vi].manifest.port_map@.len() && q == spec_port_claim(
                    #[trigger] o.instances@[vi].manifest.port_map@[k],
                ))),
    ensures
        f.wf(),
{
    o.instances@.remove_ensures(vi);
    let n = f.instances@.len();
    assert forall|fi: int| 0 <= fi < n implies f.instances@[fi] == o.instances@[
        if fi < vi {
            fi
        } else {
            fi + 1
        }
    ] by {}
    assert forall|fi: int, fj: int|
        #![trigger f.instances@[fi], f.instances@[fj]]
        0 <= fi < fj < n implies f.instances@[fi].manifest.id@ != f.instances@[fj].manifest.id@
        && f.instances@[fi].cid != f.instances@[fj].cid by {
        let oi: int = if fi < vi { fi } else { fi + 1 };
        let oj: int = if fj < vi { fj } else { fj + 1 };
        assert(o.instances@[oi].manifest.id@ != o.instances@[oj].manifest.id@);
        assert(o.instances@[oi].cid != o.instances@[oj].cid);
    }
    assert(f.ids_distinct());
    assert(f.cids_distinct());
    assert forall|fi: int| 0 <= fi < n implies f.pool.cid_claimed(
        #[trigger] f.instances@[fi].cid,
    ) by {
        let oi: int = if fi < vi { fi } else { fi + 1 };
        assert(o.pool.cid_claimed(o.instances@[oi].cid));
        assert(o.instances@[oi].cid != o.instances@[vi].cid);
    }
    assert forall|fi: int, k: int| f.claim_index_ok(fi, k) implies f.pool.port_claimed(
        #[trigger] f.inst_claim(fi, k),
    ) by {
        let oi: int = if fi < vi { fi } else { fi + 1 };
        assert(f.inst_claim(fi, k) == o.inst_claim(oi, k));
        assert(o.pool.port_claimed(o.inst_claim(oi, k)));
        assert forall|l: int|
            0 <= l < o.instances@[vi].manifest.port_map@.len() implies o.inst_claim(oi, k)
            != spec_port_claim(#[trigger] o.instances@[vi].manifest.port_map@[l]) by {
            assert(o.inst_claim(oi, k) != o.inst_claim(vi, l));
        }
    }
    assert forall|fi: int, k: int, fj: int, l: int|
        f.claim_index_ok(fi, k) && f.claim_index_ok(fj, l) && (fi != fj || k
            != l) implies #[trigger] f.inst_claim(fi, k) != #[trigger] f.inst_claim(fj, l) by {
        let oi: int = if fi < vi { fi } else { fi + 1 };
        let oj: int = if fj < vi { fj } else { fj + 1 };
        assert(f.inst_claim(fi, k) == o.inst_claim(oi, k));
        assert(f.inst_claim(fj, l) == o.inst_claim(oj, l));
        assert(o.inst_claim(oi, k) != o.inst_claim(oj, l));
    }
}

/// A state with one record changed in place — same id, same CID, same
/// port mappings — and everything else untouched is still well-formed.
pub proof fn lemma_wf_update_same_keys(o: App, f: App, vi: int)
    requires
        o.wf(),
        0 <= vi < o.instances@.len(),
        f.config == o.config,
        f.images@ == o.images@,
        f.pool == o.pool,
        f.instances@.len() == o.instances@.len(),
        forall|i: int|
            0 <= i < o.instances@.len() && i != vi ==> #[trigger] f.instances@[i]
                == o.instances@[i],
        f.instances@[vi].manifest.id@ == o.instances@[vi].manifest.id@,
        f.instances@[vi].cid == o.instances@[vi].cid,
        f.instances@[vi].manifest.port_map@ == o.instances@[vi].manifest.port_map@,
    ensures
        f.wf(),
{
    let n = f.instances@.len();
    assert forall|i: int, j: int|
        #![trigger f.instances@[i], f.instances@[j]]
        0 <= i < j < n implies f.instances@[i].manifest.id@ != f.instances@[j].manifest.id@
        && f.instances@[i].cid != f.instances@[j].cid by {
        assert(o.instances@[i].manifest.id@ != o.instances@[j].manifest.id@);
        assert(o.instances@[i].cid != o.instances@[j].cid);
        assert(f.instances@[i].manifest.id@ == o.instances@[i].manifest.id@);
        assert(f.instances@[j].manifest.id@ == o.instances@[j].manifest.id@);
    }
    assert(f.ids_distinct());
    assert(f.cids_distinct());
    assert forall|i: int| 0 <= i < n implies f.pool.cid_claimed(
        #[trigger] f.instances@[i].cid,
    ) by {
        assert(f.instances@[i].cid == o.instances@[i].cid);
        assert(o.pool.cid_claimed(o.instances@[i].cid));
    }
    assert forall|i: int, k: int| f.claim_index_ok(i, k) implies f.pool.port_claimed(
        #[trigger] f.inst_claim(i, k),
    ) by {
        assert(f.inst_claim(i, k) == o.inst_claim(i, k));
        assert(o.pool.port_claimed(o.inst_claim(i, k)));
    }
    assert forall|i: int, k: int, j: int, l: int|
        f.claim_index_ok(i, k) && f.claim_index_ok(j, l) && (i != j || k
            != l) implies #[trigger] f.inst_claim(i, k) != #[trigger] f.inst_claim(j, l) by {
        assert(f.inst_claim(i, k) == o.inst_claim(i, k));
        assert(f.inst_claim(j, l) == o.inst_claim(j, l));
        assert(o.inst_claim(i, k) != o.inst_claim(j, l));
    }
}

/// Whether a character may appear in a display name.
pub open spec fn spec_label_char(c: char) -> bool {
    char_is_alphanumeric(c) || c == '-' || c == '_'
}

/// Whether a display name is valid: every character alphanumeric, `-`
/// or `_`.
pub open spec fn spec_valid_label(s: Seq<char>) -> bool {
    forall|i: int| 0 <= i < s.len() ==> spec_label_char(#[trigger] s[i])
}

/// Whether `info` is the summary of `inst`.
pub open spec fn spec_vm_info_of(inst: VmInstance, info: VmInfo) -> bool {
    &&& info.id@ == inst.manifest.id@
    &&& info.name@ == inst.manifest.name@
    &&& info.app_id@ == inst.manifest.app_id@
    &&& info.status@ == inst.status.spec_str()
}

/// The RPC-facing façade: validates requests, maps them onto the
/// orchestrator, and translates results into response messages.
pub struct RpcHandler {
    pub app: App,
}

impl RpcHandler {
    /// The façade is well-formed exactly when its state is.
    pub open spec fn wf(self) -> bool {
        self.app.wf()
    }

    /// The shared directory of an instance:
    /// `<run_path>/<id>/shared`.
    pub open spec fn spec_shared_dir(self, id: Seq<char>) -> Seq<char> {
        self.app.config.run_path@ + "/"@ + id + "/shared"@
    }

    /// The shared directory of an instance.
    pub fn shared_dir(&self, id: &str) -> (r: String)
        ensures
            r@ == self.spec_shared_dir(id@),
    {
        let mut s = self.app.config.run_path.clone();
        s.append("/");
        s.append(id);
        s.append("/shared");
        s
    }

    /// Where an instance's compose specification lives on disk.
    pub fn compose_file_path(&self, id: &str) -> (r: String)
        ensures
            r@ == self.spec_shared_dir(id@) + "/app-compose.json"@,
    {
        let mut s = self.shared_dir(id);
        s.append("/app-compose.json");
        s
    }

    /// Where an instance's encrypted environment blob lives on disk.
    pub fn encrypted_env_path(&self, id: &str) -> (r: String)
        ensures
            r@ == self.spec_shared_dir(id@) + "/encrypted-env"@,
    {
        let mut s = self.shared_dir(id);
        s.append("/encrypted-env");
        s
    }

    /// The endpoint of the remote KMS collaborator, `<kms_url>/prpc`;
    /// an empty configured URL means KMS is not configured, a
    /// validation error.
    pub fn kms_client_url(&self) -> (r: Result<String, VmmError>)
        ensures
            r is Ok <==> self.app.config.kms_url@.len() > 0,
            r matches Ok(u) ==> u@ == self.app.config.kms_url@ + "/prpc"@,
            r matches Err(e) ==> e == VmmError::Validation,
    {
        if self.app.config.kms_url.as_str().is_empty() {
            return Err(VmmError::Validation);
        }
        let mut s = self.app.config.kms_url.clone();
        s.append("/prpc");
        Ok(s)
    }

    /// Host metadata: the collaborator endpoints and resource ceilings,
    /// straight from the configuration.
    pub fn get_meta(&self) -> (r: GetMetaResponse)
        ensures
            r.kms.url@ == self.app.config.cvm.kms_url@,
            r.tproxy.url@ == self.app.config.cvm.tproxy_url@,
            r.tproxy.base_domain@ == self.app.config.gateway.base_domain@,
            r.tproxy.port == self.app.config.gateway.port as u32,
            r.tproxy.tappd_port == self.app.config.gateway.tappd_port as u32,
            r.resources.max_cvm_number == self.app.config.cvm.cid_pool_size,
            r.resources.max_allocable_vcpu == self.app.config.cvm.max_allocable_vcpu,
            r.resources.max_allocable_memory_in_mb == self.app.config.cvm.max_allocable_memory_in_mb,
            r.resources.max_disk_size_in_gb == self.app.config.cvm.max_disk_size,
    {
        GetMetaResponse {
            kms: KmsSettings { url: self.app.config.cvm.kms_url.clone() },
            tproxy: TProxySettings {
                url: self.app.config.cvm.tproxy_url.clone(),
                base_domain: self.app.config.gateway.base_domain.clone(),
                port: self.app.config.gateway.port as u32,
                tappd_port: self.app.config.gateway.tappd_port as u32,
            },
            resources: ResourcesSettings {
                max_cvm_number: self.app.config.cvm.cid_pool_size,
                max_allocable_vcpu: self.app.config.cvm.max_allocable_vcpu,
                max_allocable_memory_in_mb: self.app.config.cvm.max_allocable_memory_in_mb,
                max_disk_size_in_gb: self.app.config.cvm.max_disk_size,
            },
        }
    }

    /// One summary per existing instance — the report reflects exactly
    /// the set of live records — plus whether port mapping is enabled.
    pub fn status(&self) -> (r: StatusResponse)
        ensures
            r.vms@.len() == self.app.instances@.len(),
            forall|i: int|
                0 <= i < self.app.instances@.len() ==> spec_vm_info_of(
                    self.app.instances@[i],
                    #[trigger] r.vms@[i],
                ),
            r.port_mapping_enabled == self.app.config.cvm.port_mapping.enabled,
    {
        let n = self.app.instances.len();
        let mut vms: Vec<VmInfo> = Vec::new();
        let mut i: usize = 0;
        while i < n
            invariant
                n == self.app.instances@.len(),
                0 <= i <= n,
                vms@.len() == i,
                forall|j: int|
                    0 <= j < i ==> spec_vm_info_of(self.app.instances@[j], #[trigger] vms@[j]),
            decreases n - i,
        {
            let inst = &self.app.instances[i];
            vms.push(
                VmInfo {
                    id: inst.manifest.id.clone(),
                    name: inst.manifest.name.clone(),
                    status: inst.status.as_str().to_owned(),
                    app_id: inst.manifest.app_id.clone(),
                },
            );
            i = i + 1;
        }
        StatusResponse { vms, port_mapping_enabled: self.app.config.cvm.port_mapping.enabled }
    }

    /// The names of the bootable images, each with an empty description.
    pub fn list_images(&self) -> (r: ImageListResponse)
        ensures
            r.images@.len() == self.app.images@.len(),
            forall|i: int|
                0 <= i < self.app.images@.len() ==> (#[trigger] r.images@[i]).name@
                    == self.app.images@[i].name@ && r.images@[i].description@.len() == 0,
    {
        let n = self.app.images.len();
        let mut images: Vec<ImageListEntry> = Vec::new();
        let mut i: usize = 0;
        while i < n
            invariant
                n == self.app.images@.len(),
                0 <= i <= n,
                images@.len() == i,
                forall|j: int|
                    0 <= j < i ==> (#[trigger] images@[j]).name@ == self.app.images@[j].name@
                        && images@[j].description@.len() == 0,
            decreases n - i,
        {
            images.push(
                ImageListEntry {
                    name: self.app.images[i].name.clone(),
                    description: String::new(),
                },
            );
            i = i + 1;
        }
        ImageListResponse { images }
    }

    /// Looks one instance up by id: found exactly when its record
    /// exists, with its summary.
    pub fn get_info(&self, request: &Id) -> (r: GetInfoResponse)
        requires
            self.wf(),
        ensures
            r.found == self.app.spec_has_vm(request.id@),
            r.found ==> (r.info matches Some(vi) && spec_vm_info_of(
                self.app.instances@[self.app.spec_vm_index(request.id@)],
                vi,
            )),
            !r.found ==> r.info is None,
    {
        match self.app.find_vm_index(request.id.as_str()) {
            Some(i) => {
                let inst = &self.app.instances[i];
                proof {
                    lemma_vm_index_unique(self.app, request.id@, i as int);
                }
                GetInfoResponse {
                    found: true,
                    info: Some(
                        VmInfo {
                            id: inst.manifest.id.clone(),
                            name: inst.manifest.name.clone(),
                            status: inst.status.as_str().to_owned(),
                            app_id: inst.manifest.app_id.clone(),
                        },
                    ),
                }
            },
            None => GetInfoResponse { found: false, info: None },
        }
    }
}

/// Validates the display name of a VM: alphanumeric characters, dash and
/// underscore only.
pub fn validate_label(label: &str) -> (r: Result<(), VmmError>)
    ensures
        r is Ok <==> spec_valid_label(label@),
        r matches Err(e) ==> e == VmmError::Validation,
{
    let n = label.unicode_len();
    let mut i: usize = 0;
    while i < n
        invariant
            n == label@.len(),
            0 <= i <= n,
            forall|j: int| 0 <= j < i ==> spec_label_char(#[trigger] label@[j]),
        decreases n - i,
    {
        let c = label.get_char(i);
        if !(is_alphanumeric_char(c) || c == '-' || c == '_') {
            return Err(VmmError::Validation);
        }
        i = i + 1;
    }
    Ok(())
}

/// Whether one requested mapping is legal under the policy: ports fit in
/// 16 bits, the protocol name parses, and the policy admits the pair.
pub open spec fn spec_port_ok(pm: PortMappingConfig, p: PortMappingRequest) -> bool {
    &&& p.host_port <= u16::MAX
    &&& p.vm_port <= u16::MAX
    &&& pm.spec_is_allowed(p.protocol@, p.host_port as u16)
    &&& Protocol::spec_of_str(p.protocol@) is Some
}

/// Whether a whole request's mappings are admissible: a non-empty
/// list requires the feature enabled, and every mapping must be legal.
pub open spec fn spec_ports_legal(pm: PortMappingConfig, ports: Seq<PortMappingRequest>) -> bool {
    &&& ports.len() == 0 || pm.enabled
    &&& forall|i: int| 0 <= i < ports.len() ==> spec_port_ok(pm, #[trigger] ports[i])
}

/// Whether `m` is the recorded mapping a legal request `p` becomes.
pub open spec fn spec_mapping_of(
    pm: PortMappingConfig,
    p: PortMappingRequest,
    m: PortMapping,
) -> bool {
    &&& m.address@ == pm.address@
    &&& Some(m.protocol) == Protocol::spec_of_str(p.protocol@)
    &&& m.from == p.host_port as u16
    &&& m.to == p.vm_port as u16
}

/// The pool claim a legal request stands for.
pub open spec fn spec_req_claim(p: PortMappingRequest) -> PortClaim {
    PortClaim {
        protocol: Protocol::spec_of_str(p.protocol@)->Some_0,
        port: p.host_port as u16,
    }
}

/// Validates the requested mappings against the policy and builds the
/// recorded mappings, in order; any illegal mapping (or a non-empty list
/// while the feature is disabled) is a validation error.
pub fn build_port_map(pm: &PortMappingConfig, ports: &Vec<PortMappingRequest>) -> (r: Result<
    Vec<PortMapping>,
    VmmError,
>)
    ensures
        r is Ok <==> spec_ports_legal(*pm, ports@),
        r matches Ok(v) ==> v@.len() == ports@.len() && forall|k: int|
            0 <= k < ports@.len() ==> spec_mapping_of(*pm, ports@[k], #[trigger] v@[k]),
        r matches Err(e) ==> e == VmmError::Validation,
{
    let n = ports.len();
    if n > 0 && !pm.enabled {
        assert(!spec_ports_legal(*pm, ports@));
        return Err(VmmError::Validation);
    }
    let mut out: Vec<PortMapping> = Vec::new();
    let mut i: usize = 0;
    while i < n
        invariant
            n == ports@.len(),
            n == 0 || pm.enabled,
            0 <= i <= n,
            out@.len() == i,
            forall|j: int| 0 <= j < i ==> spec_port_ok(*pm, #[trigger] ports@[j]),
            forall|j: int|
                0 <= j < i ==> spec_mapping_of(*pm, ports@[j], #[trigger] out@[j]),
        decreases n - i,
    {
        let p = &ports[i];
        if p.host_port > 65535 {
            assert(!spec_port_ok(*pm, ports@[i as int]));
            return Err(VmmError::Validation);
        }
        let from: u16 = p.host_port as u16;
        if p.vm_port > 65535 {
            assert(!spec_port_ok(*pm, ports@[i as int]));
            return Err(VmmError::Validation);
        }
        let to: u16 = p.vm_port as u16;
        if !pm.is_allowed(p.protocol.as_str(), from) {
            assert(!spec_port_ok(*pm, ports@[i as int]));
            return Err(VmmError::Validation);
        }
        let protocol = match Protocol::from_str(p.protocol.as_str()) {
            Ok(pr) => pr,
            Err(e) => {
                assert(!spec_port_ok(*pm, ports@[i as int]));
                return Err(e);
            },
        };
        out.push(PortMapping { address: pm.address.clone(), protocol, from, to });
        i = i + 1;
    }
    Ok(out)
}

/// The application id an instance is created with: the caller-supplied
/// one when present, else the id derived from the compose content.
pub open spec fn spec_resolved_app_id(req: VmConfiguration) -> Seq<char> {
    match req.app_id {
        Some(s) => s@,
        None => spec_app_id(req.compose_file@),
    }
}

/// Whether the requested mappings collide with an existing claim or with
/// one another.
pub open spec fn spec_port_conflict(pool: ResourcePool, ports: Seq<PortMappingRequest>) -> bool {
    ||| exists|k: int|
        0 <= k < ports.len() && pool.port_claimed(#[trigger] spec_req_claim(ports[k]))
    ||| exists|k: int, l: int|
        #![trigger spec_req_claim(ports[k]), spec_req_claim(ports[l])]
        0 <= k < l < ports.len() && spec_req_claim(ports[k]) == spec_req_claim(ports[l])
}

impl RpcHandler {
    /// The outcome `create_vm_with_id` owes for a given state, request
    /// and instance id, checked in this order: name validation, port
    /// legality, id freshness, image existence, image root filesystem
    /// hash, port claims, CID availability.
    pub open spec fn spec_create_outcome(self, req: VmConfiguration, id: Seq<char>) -> Result<
        (),
        VmmError,
    > {
        if !spec_valid_label(req.name@) {
            Err(VmmError::Validation)
        } else if !spec_ports_legal(self.app.config.cvm.port_mapping, req.ports@) {
            Err(VmmError::Validation)
        } else if self.app.spec_has_vm(id) {
            Err(VmmError::Conflict)
        } else if !self.app.spec_has_image(req.image@) {
            Err(VmmError::NotFound)
        } else if self.app.images@[self.app.spec_image_index(req.image@)].rootfs_hash is None {
            Err(VmmError::Validation)
        } else if spec_port_conflict(self.app.pool, req.ports@) {
            Err(VmmError::Conflict)
        } else if self.app.pool.exhausted() {
            Err(VmmError::ResourceExhausted)
        } else {
            Ok(())
        }
    }

    /// What the record of a newly created instance holds: the manifest
    /// exactly as requested, the compose and environment payloads byte
    /// for byte, the generated boot configuration from the image's root
    /// filesystem hash and the host's collaborator URLs, the identity
    /// stamp only for an explicit non-empty application id, and the
    /// instance marked started and running.
    pub open spec fn spec_new_instance(
        self,
        req: VmConfiguration,
        id: Seq<char>,
        now_ms: u64,
        inst: VmInstance,
    ) -> bool {
        let cfg = self.app.config;
        &&& inst.manifest.id@ == id
        &&& inst.manifest.name@ == req.name@
        &&& inst.manifest.app_id@ == spec_resolved_app_id(req)
        &&& inst.manifest.image@ == req.image@
        &&& inst.manifest.vcpu == req.vcpu
        &&& inst.manifest.memory == req.memory
        &&& inst.manifest.disk_size == req.disk_size
        &&& inst.manifest.created_at_ms == now_ms
        &&& inst.manifest.port_map@.len() == req.ports@.len()
        &&& forall|k: int|
            0 <= k < req.ports@.len() ==> spec_mapping_of(
                cfg.cvm.port_mapping,
                req.ports@[k],
                #[trigger] inst.manifest.port_map@[k],
            )
        &&& inst.compose_file@ == req.compose_file@
        &&& (if req.encrypted_env@.len() == 0 {
            inst.encrypted_env is None
        } else {
            inst.encrypted_env matches Some(e) && e@ == req.encrypted_env@
        })
        &&& inst.vm_config.rootfs_hash@ == self.app.images@[self.app.spec_image_index(
            req.image@,
        )].rootfs_hash->Some_0@
        &&& inst.vm_config.kms_url@ == cfg.cvm.kms_url@
        &&& inst.vm_config.tproxy_url@ == cfg.cvm.tproxy_url@
        &&& inst.vm_config.docker_registry@ == cfg.cvm.docker_registry@
        &&& (match req.app_id {
            Some(s) => if s@.len() > 0 {
                inst.instance_info matches Some(ii) && ii.app_id@ == s@
            } else {
                inst.instance_info is None
            },
            None => inst.instance_info is None,
        })
        &&& inst.started == true
        &&& inst.status == VmStatus::Running
    }

    /// Prepares the durable payload of a new instance: refuses an
    /// instance id whose record already exists (ids are never reused, so
    /// a collision signals a caller bug rather than a legitimate race),
    /// resolves the image, and assembles the generated boot
    /// configuration, the optional identity stamp and the optional
    /// environment blob.  Nothing is written or allocated here; when it
    /// fails, the caller has nothing to roll back.
    pub fn prepare_work_dir(&self, id: &str, request: &VmConfiguration) -> (r: Result<
        (VmConfigFile, Option<InstanceInfo>, Option<Vec<u8>>),
        VmmError,
    >)
        requires
            self.wf(),
        ensures
            r is Ok <==> (!self.app.spec_has_vm(id@) && self.app.spec_has_image(request.image@)
                && self.app.images@[self.app.spec_image_index(
                request.image@,
            )].rootfs_hash is Some),
            match r {
                Ok(p) => {
                    &&& p.0.rootfs_hash@ == self.app.images@[self.app.spec_image_index(
                        request.image@,
                    )].rootfs_hash->Some_0@
                    &&& p.0.kms_url@ == self.app.config.cvm.kms_url@
                    &&& p.0.tproxy_url@ == self.app.config.cvm.tproxy_url@
                    &&& p.0.docker_registry@ == self.app.config.cvm.docker_registry@
                    &&& (match request.app_id {
                        Some(s) => if s@.len() > 0 {
                            p.1 matches Some(ii) && ii.app_id@ == s@
                        } else {
                            p.1 is None
                        },
                        None => p.1 is None,
                    })
                    &&& (if request.encrypted_env@.len() == 0 {
                        p.2 is None
                    } else {
                        p.2 matches Some(env) && env@ == request.encrypted_env@
                    })
                },
                Err(e) => {
                    &&& (e == VmmError::Conflict <==> self.app.spec_has_vm(id@))
                    &&& (e == VmmError::NotFound <==> (!self.app.spec_has_vm(id@)
                        && !self.app.spec_has_image(request.image@)))
                    &&& (e == VmmError::Validation <==> (!self.app.spec_has_vm(id@)
                        && self.app.spec_has_image(request.image@)
                        && self.app.images@[self.app.spec_image_index(
                        request.image@,
                    )].rootfs_hash is None))
                },
            },
    {
        if self.app.find_vm_index(id).is_some() {
            return Err(VmmError::Conflict);
        }
        let img_i = match self.app.find_image_index(request.image.as_str()) {
            Some(i) => i,
            None => return Err(VmmError::NotFound),
        };
        proof {
            lemma_image_index_unique(self.app, request.image@, img_i as int);
        }
        let rootfs_hash = match &self.app.images[img_i].rootfs_hash {
            Some(h) => h.clone(),
            None => return Err(VmmError::Validation),
        };
        let vm_config = VmConfigFile {
            rootfs_hash,
            kms_url: self.app.config.cvm.kms_url.clone(),
            tproxy_url: self.app.config.cvm.tproxy_url.clone(),
            docker_registry: self.app.config.cvm.docker_registry.clone(),
        };
        let instance_info = match &request.app_id {
            Some(s) => if s.as_str().is_empty() {
                None
            } else {
                Some(InstanceInfo { app_id: s.clone() })
            },
            None => None,
        };
        let encrypted_env = if request.encrypted_env.len() == 0 {
            None
        } else {
            Some(request.encrypted_env.clone())
        };
        Ok((vm_config, instance_info, encrypted_env))
    }

    /// Creates a VM under a caller-chosen fresh instance id.
    ///
    /// Validation, resource allocation and record creation happen in the
    /// order `spec_create_outcome` states; on any failure nothing is
    /// allocated and no record is created.  On success the new record is
    /// appended, its CID is the lowest free value of the pool, and its
    /// port claims are recorded — the backend launch that follows is the
    /// caller's step, compensated by `remove_vm` if it fails.
    #[verifier::rlimit(50)]
    #[verifier::loop_isolation(false)]
    pub fn create_vm_with_id(
        &mut self,
        request: &VmConfiguration,
        id: &str,
        now_ms: u64,
    ) -> (r: Result<Id, VmmError>)
        requires
            old(self).wf(),
        ensures
            final(self).wf(),
            final(self).app.config == old(self).app.config,
            final(self).app.images@ == old(self).app.images@,
            match old(self).spec_create_outcome(*request, id@) {
                Ok(()) => {
                    &&& r matches Ok(out) && out.id@ == id@
                    &&& final(self).app.instances@.len() == old(self).app.instances@.len() + 1
                    &&& final(self).app.instances@.subrange(
                        0,
                        old(self).app.instances@.len() as int,
                    ) == old(self).app.instances@
                    &&& old(self).spec_new_instance(
                        *request,
                        id@,
                        now_ms,
                        final(self).app.instances@.last(),
                    )
                    &&& old(self).app.pool.cid_in_range(final(self).app.instances@.last().cid)
                    &&& !old(self).app.pool.cid_claimed(final(self).app.instances@.last().cid)
                    &&& forall|d: u32|
                        old(self).app.pool.cid_start <= d < final(self).app.instances@.last().cid
                            ==> old(self).app.pool.cid_claimed(d)
                    &&& forall|d: u32|
                        final(self).app.pool.cid_claimed(d) <==> (old(self).app.pool.cid_claimed(d)
                            || d == final(self).app.instances@.last().cid)
                    &&& forall|q: PortClaim|
                        final(self).app.pool.port_claimed(q) <==> (old(
                            self,
                        ).app.pool.port_claimed(q) || exists|k: int|
                            0 <= k < request.ports@.len() && q == spec_req_claim(
                                #[trigger] request.ports@[k],
                            ))
                },
                Err(e) => {
                    &&& r == Err::<Id, VmmError>(e)
                    &&& final(self).app.instances@ == old(self).app.instances@
                    &&& final(self).app.pool.claimed_cids@ == old(self).app.pool.claimed_cids@
                    &&& final(self).app.pool.claimed_ports@ == old(self).app.pool.claimed_ports@
                },
            },
    {
        if let Err(e) = validate_label(request.name.as_str()) {
            return Err(e);
        }
        let port_map = match build_port_map(&self.app.config.cvm.port_mapping, &request.ports) {
            Ok(v) => v,
            Err(e) => return Err(e),
        };
        let (vm_config, instance_info, encrypted_env) = match self.prepare_work_dir(id, request) {
            Ok(p) => p,
            Err(e) => return Err(e),
        };

        // No requested pair may be claimed already or repeat within the
        // request; checked read-only before anything is allocated.
        let nports = port_map.len();
        let mut k: usize = 0;
        while k < nports
            invariant
                self == old(self),
                self.wf(),
                nports == port_map@.len(),
                port_map@.len() == request.ports@.len(),
                forall|j: int|
                    0 <= j < request.ports@.len() ==> spec_mapping_of(
                        self.app.config.cvm.port_mapping,
                        request.ports@[j],
                        #[trigger] port_map@[j],
                    ),
                0 <= k <= nports,
                forall|j: int|
                    0 <= j < k ==> !self.app.pool.port_claimed(
                        spec_req_claim(#[trigger] request.ports@[j]),
                    ),
                forall|j: int, l: int|
                    #![trigger spec_req_claim(request.ports@[j]), spec_req_claim(request.ports@[l])]
                    0 <= j < l < k ==> spec_req_claim(request.ports@[j]) != spec_req_claim(
                        request.ports@[l],
                    ),
            decreases nports - k,
        {
            let claim = PortClaim { protocol: port_map[k].protocol, port: port_map[k].from };
            proof {
                assert(spec_mapping_of(
                    self.app.config.cvm.port_mapping,
                    request.ports@[k as int],
                    port_map@[k as int],
                ));
                assert(claim == spec_req_claim(request.ports@[k as int]));
            }
            if self.app.pool.is_port_claimed(claim) {
                proof {
                    assert(spec_port_conflict(self.app.pool, request.ports@));
                }
                return Err(VmmError::Conflict);
            }
            let mut l: usize = 0;
            while l < k
                invariant
                    nports == port_map@.len(),
                    port_map@.len() == request.ports@.len(),
                    0 <= l <= k <= nports,
                    claim == spec_req_claim(request.ports@[k as int]),
                    forall|j: int|
                        0 <= j < request.ports@.len() ==> spec_mapping_of(
                            self.app.config.cvm.port_mapping,
                            request.ports@[j],
                            #[trigger] port_map@[j],
                        ),
                    forall|j: int|
                        0 <= j < l ==> spec_req_claim(#[trigger] request.ports@[j]) != spec_req_claim(
                            request.ports@[k as int],
                        ),
                decreases k - l,
            {
                let other = PortClaim { protocol: port_map[l].protocol, port: port_map[l].from };
                proof {
                    assert(spec_mapping_of(
                        self.app.config.cvm.port_mapping,
                        request.ports@[l as int],
                        port_map@[l as int],
                    ));
                    assert(other == spec_req_claim(request.ports@[l as int]));
                }
                if other == claim {
                    proof {
                        assert(spec_port_conflict(self.app.pool, request.ports@));
                    }
                    return Err(VmmError::Conflict);
                }
                l = l + 1;
            }
            k = k + 1;
        }
        proof {
            assert(!spec_port_conflict(self.app.pool, request.ports@));
        }

        // The lowest free CID, or the pool is exhausted and nothing has
        // changed.
        let cid = match self.app.pool.allocate_cid() {
            Ok(c) => c,
            Err(e) => {
                proof {
                    lemma_wf_same_claims(old(self).app, self.app);
                }
                return Err(e);
            },
        };

        // Claim every requested pair; none can conflict any more.
        let ghost pool0 = self.app.pool;
        let ghost old_pool = old(self).app.pool;
        let mut k: usize = 0;
        while k < nports
            invariant
                self.app.config == old(self).app.config,
                self.app.images@ == old(self).app.images@,
                self.app.instances@ == old(self).app.instances@,
                self.app.pool.wf(),
                self.app.pool.cid_start == pool0.cid_start,
                self.app.pool.cid_pool_size == pool0.cid_pool_size,
                self.app.pool.claimed_cids@ == pool0.claimed_cids@,
                nports == port_map@.len(),
                port_map@.len() == request.ports@.len(),
                forall|j: int|
                    0 <= j < request.ports@.len() ==> spec_mapping_of(
                        self.app.config.cvm.port_mapping,
                        request.ports@[j],
                        #[trigger] port_map@[j],
                    ),
                0 <= k <= nports,
                forall|j: int|
                    0 <= j < request.ports@.len() ==> !old_pool.port_claimed(
                        spec_req_claim(#[trigger] request.ports@[j]),
                    ),
                forall|j: int, l: int|
                    #![trigger spec_req_claim(request.ports@[j]), spec_req_claim(request.ports@[l])]
                    0 <= j < l < request.ports@.len() ==> spec_req_claim(request.ports@[j])
                        != spec_req_claim(request.ports@[l]),
                forall|q: PortClaim| pool0.port_claimed(q) == old_pool.port_claimed(q),
                forall|q: PortClaim|
                    self.app.pool.port_claimed(q) <==> (pool0.port_claimed(q) || exists|j: int|
                        0 <= j < k && q == spec_req_claim(#[trigger] request.ports@[j])),
            decreases nports - k,
        {
            let claim = PortClaim { protocol: port_map[k].protocol, port: port_map[k].from };
            proof {
                assert(spec_mapping_of(
                    self.app.config.cvm.port_mapping,
                    request.ports@[k as int],
                    port_map@[k as int],
                ));
                assert(claim == spec_req_claim(request.ports@[k as int]));
            }
            match self.app.pool.claim_port(claim) {
                Ok(()) => {},
                Err(_) => {
                    // Unreachable: the pair was checked free of existing
                    // claims and of duplicates within the request.
                    proof {
                        assert(false);
                    }
                    return Err(VmmError::Conflict);
                },
            }
            k = k + 1;
        }

        // Resolve the application id and assemble the record.
        let app_id = match &request.app_id {
            Some(s) => s.clone(),
            None => app_id_of(request.compose_file.as_str()),
        };
        let manifest = Manifest {
            id: id.to_owned(),
            name: request.name.clone(),
            app_id,
            image: request.image.clone(),
            vcpu: request.vcpu,
            memory: request.memory,
            disk_size: request.disk_size,
            port_map,
            created_at_ms: now_ms,
        };
        let inst = VmInstance {
            manifest,
            cid,
            compose_file: request.compose_file.clone(),
            encrypted_env,
            vm_config,
            instance_info,
            started: true,
            status: VmStatus::Running,
        };
        self.app.instances.push(inst);

        proof {
            let f = *self;
            let o = *old(self);
            let n = o.app.instances@.len() as int;
            assert(f.app.instances@.subrange(0, n) =~= o.app.instances@);
            let newi = f.app.instances@.last();

            // Fresh id: no existing record carries it.
            assert forall|i: int| 0 <= i < n implies (#[trigger] o.app.instances@[i]).manifest.id@
                != id@ by {
                if o.app.instances@[i].manifest.id@ == id@ {
                    assert(o.app.spec_has_vm(id@));
                }
            }
            assert(f.app.ids_distinct());

            // Fresh CID: distinct from every recorded one.
            assert forall|i: int| 0 <= i < n implies (#[trigger] o.app.instances@[i]).cid
                != newi.cid by {
                assert(o.app.pool.cid_claimed(o.app.instances@[i].cid));
            }
            assert(f.app.cids_distinct());
            assert(f.app.cids_claimed());

            // Every old claim still stands; the new record's claims are in.
            assert forall|i: int, k2: int| f.app.claim_index_ok(i, k2) implies f.app.pool.port_claimed(
                #[trigger] f.app.inst_claim(i, k2),
            ) by {
                if i < n {
                    assert(o.app.inst_claim(i, k2) == f.app.inst_claim(i, k2));
                    assert(o.app.pool.port_claimed(o.app.inst_claim(i, k2)));
                } else {
                    assert(f.app.inst_claim(i, k2) == spec_req_claim(request.ports@[k2]));
                }
            }

            // No two claims coincide, old-old, old-new or new-new.
            assert forall|i: int, k2: int, j: int, l2: int|
                f.app.claim_index_ok(i, k2) && f.app.claim_index_ok(j, l2) && (i != j || k2
                    != l2) implies #[trigger] f.app.inst_claim(i, k2) != #[trigger] f.app.inst_claim(
                j,
                l2,
            ) by {
                if i < n && j < n {
                    assert(o.app.inst_claim(i, k2) == f.app.inst_claim(i, k2));
                    assert(o.app.inst_claim(j, l2) == f.app.inst_claim(j, l2));
                } else if i < n && j == n {
                    assert(o.app.pool.port_claimed(o.app.inst_claim(i, k2)));
                    assert(f.app.inst_claim(j, l2) == spec_req_claim(request.ports@[l2]));
                } else if i == n && j < n {
                    assert(o.app.pool.port_claimed(o.app.inst_claim(j, l2)));
                    assert(f.app.inst_claim(i, k2) == spec_req_claim(request.ports@[k2]));
                } else {
                    assert(f.app.inst_claim(i, k2) == spec_req_claim(request.ports@[k2]));
                    assert(f.app.inst_claim(j, l2) == spec_req_claim(request.ports@[l2]));
                }
            }
            assert(f.app.wf());
            assert(o.spec_create_outcome(*request, id@) is Ok);
            assert(o.spec_new_instance(*request, id@, now_ms, newi));
        }
        Ok(Id { id: id.to_owned() })
    }
}

/// Relies on uuid::Uuid::new_v4 and its hyphenated lowercase string
/// form: a fresh random instance id, 36 characters long.  Nothing is
/// assumed about which id comes back; freshness against existing records
/// is checked by the caller.
#[verifier::external_body]
fn fresh_instance_id() -> (r: String)
    ensures
        r@.len() == 36,
{
    uuid::Uuid::new_v4().to_string()
}

/// The value an optional resize field leaves in the manifest: the new
/// value when supplied, else the recorded one.
pub open spec fn spec_pick(newv: Option<u32>, oldv: u32) -> u32 {
    match newv {
        Some(v) => v,
        None => oldv,
    }
}

impl RpcHandler {
    /// Creates a VM under a freshly generated instance id and reports
    /// that id.  Behaves as `create_vm_with_id` for whatever id was
    /// drawn.
    pub fn create_vm(&mut self, request: &VmConfiguration, now_ms: u64) -> (r: Result<
        Id,
        VmmError,
    >)
        requires
            old(self).wf(),
        ensures
            final(self).wf(),
            final(self).app.config == old(self).app.config,
            final(self).app.images@ == old(self).app.images@,
            r matches Ok(out) ==> {
                &&& out.id@.len() == 36
                &&& old(self).spec_create_outcome(*request, out.id@) is Ok
                &&& final(self).app.instances@.len() == old(self).app.instances@.len() + 1
                &&& final(self).app.instances@.subrange(
                    0,
                    old(self).app.instances@.len() as int,
                ) == old(self).app.instances@
                &&& old(self).spec_new_instance(
                    *request,
                    out.id@,
                    now_ms,
                    final(self).app.instances@.last(),
                )
                &&& old(self).app.pool.cid_in_range(final(self).app.instances@.last().cid)
                &&& !old(self).app.pool.cid_claimed(final(self).app.instances@.last().cid)
                &&& forall|d: u32|
                    old(self).app.pool.cid_start <= d < final(self).app.instances@.last().cid
                        ==> old(self).app.pool.cid_claimed(d)
                &&& forall|d: u32|
                    final(self).app.pool.cid_claimed(d) <==> (old(self).app.pool.cid_claimed(d)
                        || d == final(self).app.instances@.last().cid)
                &&& forall|q: PortClaim|
                    final(self).app.pool.port_claimed(q) <==> (old(self).app.pool.port_claimed(q)
                        || exists|k: int|
                        0 <= k < request.ports@.len() && q == spec_req_claim(
                            #[trigger] request.ports@[k],
                        ))
            },
            r matches Err(e) ==> {
                &&& final(self).app.instances@ == old(self).app.instances@
                &&& final(self).app.pool.claimed_cids@ == old(self).app.pool.claimed_cids@
                &&& final(self).app.pool.claimed_ports@ == old(self).app.pool.claimed_ports@
                &&& exists|id: Seq<char>|
                    id.len() == 36 && #[trigger] old(self).spec_create_outcome(*request, id)
                        == Err::<(), VmmError>(e)
            },
    {
        let id = fresh_instance_id();
        let r = self.create_vm_with_id(request, id.as_str(), now_ms);
        match r {
            Ok(out) => Ok(out),
            Err(e) => {
                proof {
                    assert(old(self).spec_create_outcome(*request, id@) == Err::<(), VmmError>(e));
                }
                Err(e)
            },
        }
    }

    /// Removes an instance: releases its CID and its port claims, then
    /// deletes its record — in that order, so resources are never leaked
    /// even if deleting the durable directory later fails.  An id with
    /// no record reports `NotFound` and changes nothing, so removal is
    /// idempotent; the same operation is the compensation step after a
    /// failed backend launch.
    #[verifier::rlimit(50)]
    #[verifier::loop_isolation(false)]
    pub fn remove_vm(&mut self, id: &str) -> (r: Result<(), VmmError>)
        requires
            old(self).wf(),
        ensures
            final(self).wf(),
            final(self).app.config == old(self).app.config,
            final(self).app.images@ == old(self).app.images@,
            r is Ok <==> old(self).app.spec_has_vm(id@),
            r matches Err(e) ==> {
                &&& e == VmmError::NotFound
                &&& final(self).app.instances@ == old(self).app.instances@
                &&& final(self).app.pool.claimed_cids@ == old(self).app.pool.claimed_cids@
                &&& final(self).app.pool.claimed_ports@ == old(self).app.pool.claimed_ports@
            },
            r is Ok ==> {
                let vi = old(self).app.spec_vm_index(id@);
                let inst = old(self).app.instances@[vi];
                &&& final(self).app.instances@ == old(self).app.instances@.remove(vi)
                &&& forall|c: u32|
                    final(self).app.pool.cid_claimed(c) <==> (old(self).app.pool.cid_claimed(c)
                        && c != inst.cid)
                &&& forall|q: PortClaim|
                    final(self).app.pool.port_claimed(q) <==> (old(self).app.pool.port_claimed(q)
                        && !(exists|k: int|
                        0 <= k < inst.manifest.port_map@.len() && q == spec_port_claim(
                            #[trigger] inst.manifest.port_map@[k],
                        )))
            },
    {
        let i = match self.app.find_vm_index(id) {
            Some(i) => i,
            None => return Err(VmmError::NotFound),
        };
        proof {
            lemma_vm_index_unique(self.app, id@, i as int);
        }
        let ghost inst0 = self.app.instances@[i as int];
        let nports = self.app.instances[i].manifest.port_map.len();
        let mut k: usize = 0;
        while k < nports
            invariant
                0 <= k <= nports,
                self.app.config == old(self).app.config,
                self.app.images@ == old(self).app.images@,
                self.app.instances@ == old(self).app.instances@,
                self.app.pool.wf(),
                self.app.pool.cid_start == old(self).app.pool.cid_start,
                self.app.pool.cid_pool_size == old(self).app.pool.cid_pool_size,
                self.app.pool.claimed_cids@ == old(self).app.pool.claimed_cids@,
                forall|q: PortClaim|
                    self.app.pool.port_claimed(q) <==> (old(self).app.pool.port_claimed(q)
                        && !(exists|l: int|
                        0 <= l < k && q == spec_port_claim(
                            #[trigger] inst0.manifest.port_map@[l],
                        ))),
            decreases nports - k,
        {
            let m = &self.app.instances[i].manifest.port_map[k];
            let claim = PortClaim { protocol: m.protocol, port: m.from };
            proof {
                assert(claim == spec_port_claim(inst0.manifest.port_map@[k as int]));
            }
            self.app.pool.release_port(claim);
            k = k + 1;
        }
        let cid = self.app.instances[i].cid;
        self.app.pool.release_cid(cid);
        self.app.instances.remove(i);
        proof {
            lemma_wf_after_remove(old(self).app, self.app, i as int);
        }
        Ok(())
    }

    /// Marks an instance as to-be-running: sets the persisted started
    /// flag and records the running state; the caller then tells the
    /// backend to start the process.  An unknown id reports `NotFound`.
    pub fn start_vm(&mut self, id: &str) -> (r: Result<(), VmmError>)
        requires
            old(self).wf(),
        ensures
            final(self).wf(),
            final(self).app.config == old(self).app.config,
            final(self).app.images@ == old(self).app.images@,
            final(self).app.pool == old(self).app.pool,
            r is Ok <==> old(self).app.spec_has_vm(id@),
            r matches Err(e) ==> e == VmmError::NotFound && final(self).app.instances@ == old(
                self,
            ).app.instances@,
            r is Ok ==> {
                let vi = old(self).app.spec_vm_index(id@);
                let inst = old(self).app.instances@[vi];
                final(self).app.instances@ == old(self).app.instances@.update(
                    vi,
                    VmInstance { started: true, status: VmStatus::Running, ..inst },
                )
            },
    {
        let i = match self.app.find_vm_index(id) {
            Some(i) => i,
            None => return Err(VmmError::NotFound),
        };
        proof {
            lemma_vm_index_unique(self.app, id@, i as int);
        }
        let mut inst = self.app.instances.remove(i);
        inst.started = true;
        inst.status = VmStatus::Running;
        self.app.instances.insert(i, inst);
        proof {
            assert(self.app.instances@ =~= old(self).app.instances@.update(
                i as int,
                self.app.instances@[i as int],
            ));
            lemma_wf_update_same_keys(old(self).app, self.app, i as int);
        }
        Ok(())
    }

    /// Marks an instance as stopped: clears the persisted started flag
    /// and records the stopped state; the caller then tells the backend
    /// to stop the process.  An unknown id reports `NotFound`.
    pub fn stop_vm(&mut self, id: &str) -> (r: Result<(), VmmError>)
        requires
            old(self).wf(),
        ensures
            final(self).wf(),
            final(self).app.config == old(self).app.config,
            final(self).app.images@ == old(self).app.images@,
            final(self).app.pool == old(self).app.pool,
            r is Ok <==> old(self).app.spec_has_vm(id@),
            r matches Err(e) ==> e == VmmError::NotFound && final(self).app.instances@ == old(
                self,
            ).app.instances@,
            r is Ok ==> {
                let vi = old(self).app.spec_vm_index(id@);
                let inst = old(self).app.instances@[vi];
                final(self).app.instances@ == old(self).app.instances@.update(
                    vi,
                    VmInstance { started: false, status: VmStatus::Stopped, ..inst },
                )
            },
    {
        let i = match self.app.find_vm_index(id) {
            Some(i) => i,
            None => return Err(VmmError::NotFound),
        };
        proof {
            lemma_vm_index_unique(self.app, id@, i as int);
        }
        let mut inst = self.app.instances.remove(i);
        inst.started = false;
        inst.status = VmStatus::Stopped;
        self.app.instances.insert(i, inst);
        proof {
            assert(self.app.instances@ =~= old(self).app.instances@.update(
                i as int,
                self.app.instances@[i as int],
            ));
            lemma_wf_update_same_keys(old(self).app, self.app, i as int);
        }
        Ok(())
    }

    /// Changes the declared resources of a stopped instance: only the
    /// supplied fields are applied to the manifest, everything else is
    /// left untouched.  A running instance is a conflict and nothing
    /// changes; the disk size is a declared value only — actual storage
    /// reallocation is out of scope.
    pub fn resize_vm(&mut self, request: &ResizeVmRequest) -> (r: Result<(), VmmError>)
        requires
            old(self).wf(),
        ensures
            final(self).wf(),
            final(self).app.config == old(self).app.config,
            final(self).app.images@ == old(self).app.images@,
            final(self).app.pool == old(self).app.pool,
            r is Ok <==> (old(self).app.spec_has_vm(request.id@) && old(self).app.instances@[old(
                self,
            ).app.spec_vm_index(request.id@)].status == VmStatus::Stopped),
            r == Err::<(), VmmError>(VmmError::NotFound) <==> !old(self).app.spec_has_vm(
                request.id@,
            ),
            r == Err::<(), VmmError>(VmmError::Conflict) <==> (old(self).app.spec_has_vm(
                request.id@,
            ) && old(self).app.instances@[old(self).app.spec_vm_index(request.id@)].status
                != VmStatus::Stopped),
            r is Err ==> final(self).app.instances@ == old(self).app.instances@,
            r is Ok ==> {
                let vi = old(self).app.spec_vm_index(request.id@);
                let inst = old(self).app.instances@[vi];
                final(self).app.instances@ == old(self).app.instances@.update(
                    vi,
                    VmInstance {
                        manifest: Manifest {
                            vcpu: spec_pick(request.vcpu, inst.manifest.vcpu),
                            memory: spec_pick(request.memory, inst.manifest.memory),
                            disk_size: spec_pick(request.disk_size, inst.manifest.disk_size),
                            ..inst.manifest
                        },
                        ..inst
                    },
                )
            },
    {
        let i = match self.app.find_vm_index(request.id.as_str()) {
            Some(i) => i,
            None => return Err(VmmError::NotFound),
        };
        proof {
            lemma_vm_index_unique(self.app, request.id@, i as int);
        }
        if !matches!(self.app.instances[i].status, VmStatus::Stopped) {
            return Err(VmmError::Conflict);
        }
        let mut inst = self.app.instances.remove(i);
        if let Some(v) = request.vcpu {
            inst.manifest.vcpu = v;
        }
        if let Some(v) = request.memory {
            inst.manifest.memory = v;
        }
        if let Some(v) = request.disk_size {
            // Only the declared value changes; storage reallocation is
            // out of scope here.
            inst.manifest.disk_size = v;
        }
        self.app.instances.insert(i, inst);
        proof {
            assert(self.app.instances@ =~= old(self).app.instances@.update(
                i as int,
                self.app.instances@[i as int],
            ));
            lemma_wf_update_same_keys(old(self).app, self.app, i as int);
        }
        Ok(())
    }
}

/// Whether `f` is `o` with exactly the record at `vi` upgraded: the
/// compose replaced when `has_compose`, the environment replaced when
/// `has_env`, and every other record and every other field untouched.
pub open spec fn spec_upgrade_applied(
    o: App,
    f: App,
    vi: int,
    compose: Seq<char>,
    has_compose: bool,
    env: Seq<u8>,
    has_env: bool,
) -> bool {
    &&& f.instances@.len() == o.instances@.len()
    &&& forall|j: int|
        0 <= j < o.instances@.len() && j != vi ==> #[trigger] f.instances@[j] == o.instances@[j]
    &&& f.instances@[vi].manifest == o.instances@[vi].manifest
    &&& f.instances@[vi].cid == o.instances@[vi].cid
    &&& f.instances@[vi].vm_config == o.instances@[vi].vm_config
    &&& f.instances@[vi].instance_info == o.instances@[vi].instance_info
    &&& f.instances@[vi].started == o.instances@[vi].started
    &&& f.instances@[vi].status == o.instances@[vi].status
    &&& (if has_compose {
        f.instances@[vi].compose_file@ == compose
    } else {
        f.instances@[vi].compose_file == o.instances@[vi].compose_file
    })
    &&& (if has_env {
        f.instances@[vi].encrypted_env matches Some(e) && e@ == env
    } else {
        f.instances@[vi].encrypted_env == o.instances@[vi].encrypted_env
    })
}

impl RpcHandler {
    /// Replaces an instance's stored compose specification and/or
    /// encrypted environment.
    ///
    /// A new compose must pass the schema check (`validate_app_compose`)
    /// before anything is written; it re-derives the application id,
    /// which is returned.  An empty compose leaves the compose untouched
    /// and returns an empty id.  The environment replacement is
    /// independent and optional.  The manifest — including its recorded
    /// application id — is never touched.
    pub fn upgrade_app(&mut self, request: &UpgradeAppRequest) -> (r: Result<Id, VmmError>)
        requires
            old(self).wf(),
        ensures
            final(self).wf(),
            final(self).app.config == old(self).app.config,
            final(self).app.images@ == old(self).app.images@,
            final(self).app.pool == old(self).app.pool,
            r matches Err(e) ==> {
                &&& final(self).app.instances@ == old(self).app.instances@
                &&& (e == VmmError::Validation || e == VmmError::NotFound || e
                    == VmmError::IoFailure)
            },
            r == Err::<Id, VmmError>(VmmError::NotFound) ==> !old(self).app.spec_has_vm(
                request.id@,
            ),
            r matches Ok(out) ==> {
                if request.compose_file@.len() > 0 {
                    &&& old(self).app.spec_has_vm(request.id@)
                    &&& out.id@ == spec_app_id(request.compose_file@)
                    &&& spec_upgrade_applied(
                        old(self).app,
                        final(self).app,
                        old(self).app.spec_vm_index(request.id@),
                        request.compose_file@,
                        true,
                        request.encrypted_env@,
                        request.encrypted_env@.len() > 0,
                    )
                } else if request.encrypted_env@.len() > 0 {
                    &&& old(self).app.spec_has_vm(request.id@)
                    &&& out.id@.len() == 0
                    &&& spec_upgrade_applied(
                        old(self).app,
                        final(self).app,
                        old(self).app.spec_vm_index(request.id@),
                        request.compose_file@,
                        false,
                        request.encrypted_env@,
                        true,
                    )
                } else {
                    &&& out.id@.len() == 0
                    &&& final(self).app.instances@ == old(self).app.instances@
                }
            },
            (request.compose_file@.len() == 0 && request.encrypted_env@.len() > 0) ==> (r is Ok
                <==> old(self).app.spec_has_vm(request.id@)),
            (request.compose_file@.len() == 0 && request.encrypted_env@.len() == 0) ==> r is Ok,
            request.compose_file@.len() > 0 ==> {
                &&& (r is Ok <==> (spec_compose_upgradable(request.compose_file@) && old(
                    self,
                ).app.spec_has_vm(request.id@)))
                &&& (r == Err::<Id, VmmError>(VmmError::Validation) <==> !spec_compose_upgradable(
                    request.compose_file@,
                ))
                &&& (r == Err::<Id, VmmError>(VmmError::NotFound) <==> (spec_compose_upgradable(
                    request.compose_file@,
                ) && !old(self).app.spec_has_vm(request.id@)))
            },
    {
        if !request.compose_file.as_str().is_empty() {
            // The schema check comes first: an invalid compose changes
            // nothing, wherever the instance may be.
            let checked = validate_app_compose(request.compose_file.as_str());
            if let Err(e) = checked {
                return Err(e);
            }
            let i = match self.app.find_vm_index(request.id.as_str()) {
                Some(i) => i,
                None => return Err(VmmError::NotFound),
            };
            proof {
                lemma_vm_index_unique(self.app, request.id@, i as int);
            }
            let mut inst = self.app.instances.remove(i);
            inst.compose_file = request.compose_file.clone();
            if request.encrypted_env.len() > 0 {
                inst.encrypted_env = Some(request.encrypted_env.clone());
            }
            self.app.instances.insert(i, inst);
            proof {
                assert(self.app.instances@ =~= old(self).app.instances@.update(
                    i as int,
                    self.app.instances@[i as int],
                ));
                lemma_wf_update_same_keys(old(self).app, self.app, i as int);
            }
            let new_id = app_id_of(request.compose_file.as_str());
            return Ok(Id { id: new_id });
        }
        if request.encrypted_env.len() > 0 {
            // Without an instance directory there is nowhere to write
            // the blob; the durable store reports the failure.
            let i = match self.app.find_vm_index(request.id.as_str()) {
                Some(i) => i,
                None => return Err(VmmError::IoFailure),
            };
            proof {
                lemma_vm_index_unique(self.app, request.id@, i as int);
            }
            let mut inst = self.app.instances.remove(i);
            inst.encrypted_env = Some(request.encrypted_env.clone());
            self.app.instances.insert(i, inst);
            proof {
                assert(self.app.instances@ =~= old(self).app.instances@.update(
                    i as int,
                    self.app.instances@[i as int],
                ));
                lemma_wf_update_same_keys(old(self).app, self.app, i as int);
            }
        }
        Ok(Id { id: String::new() })
    }
}

/// Whether a set of durable records could all be live at once: no two
/// hold the same instance id, the same CID, or the same port claim —
/// within one record or across two.
pub open spec fn spec_records_consistent(rs: Seq<VmInstance>) -> bool {
    &&& forall|i: int, j: int|
        #![trigger rs[i], rs[j]]
        0 <= i < j < rs.len() ==> rs[i].manifest.id@ != rs[j].manifest.id@
    &&& forall|i: int, j: int|
        #![trigger rs[i].cid, rs[j].cid]
        0 <= i < j < rs.len() ==> rs[i].cid != rs[j].cid
    &&& forall|i: int, k: int, j: int, l: int|
        #![trigger rs[i].manifest.port_map@[k], rs[j].manifest.port_map@[l]]
        0 <= i < rs.len() && 0 <= k < rs[i].manifest.port_map@.len() && 0 <= j < rs.len() && 0 <= l
            < rs[j].manifest.port_map@.len() && (i != j || k != l) ==> spec_port_claim(
            rs[i].manifest.port_map@[k],
        ) != spec_port_claim(rs[j].manifest.port_map@[l])
}

impl App {
    /// Rebuilds the control-plane state from the durable records found
    /// at startup: every recorded CID and port claim is registered in
    /// the pool before any new allocation can be served.  It succeeds
    /// exactly when the records do not contradict one another — a
    /// repeated instance id, CID or port claim is rejected as a
    /// conflict.
    #[verifier::rlimit(50)]
    #[verifier::loop_isolation(false)]
    pub fn load(config: Config, images: Vec<ImageInfo>, records: Vec<VmInstance>) -> (r: Result<
        App,
        VmmError,
    >)
        requires
            config.wf(),
            forall|i: int, j: int|
                #![trigger images@[i], images@[j]]
                0 <= i < j < images@.len() ==> images@[i].name@ != images@[j].name@,
        ensures
            r matches Ok(app) ==> {
                &&& app.wf()
                &&& app.config == config
                &&& app.images@ == images@
                &&& app.instances@ == records@
                &&& forall|c: u32|
                    app.pool.cid_claimed(c) <==> exists|i: int|
                        0 <= i < records@.len() && (#[trigger] records@[i]).cid == c
                &&& forall|q: PortClaim|
                    app.pool.port_claimed(q) <==> exists|i: int, k: int|
                        0 <= i < records@.len() && 0 <= k
                            < records@[i].manifest.port_map@.len() && q == spec_port_claim(
                            #[trigger] records@[i].manifest.port_map@[k],
                        )
            },
            r matches Err(e) ==> e == VmmError::Conflict,
            r is Ok <==> spec_records_consistent(records@),
    {
        let ghost records0 = records@;
        let mut records = records;
        let pool = ResourcePool::new(config.cvm.cid_start, config.cvm.cid_pool_size);
        let mut app = App { config, pool, images, instances: Vec::new() };
        let n = records.len();
        let mut idx: usize = 0;
        // Records are consumed front to back; what is left is the tail
        // still to be registered.
        while idx < n
            invariant
                0 <= idx <= n,
                n == records0.len(),
                app.config == config,
                app.images@ == images@,
                n == idx + records@.len(),
                app.instances@.len() == idx,
                forall|j: int| 0 <= j < idx ==> app.instances@[j] == records0[j],
                forall|j: int| 0 <= j < records@.len() ==> records@[j] == records0[idx + j],
                app.wf(),
                forall|c: u32|
                    app.pool.cid_claimed(c) <==> exists|i: int|
                        0 <= i < idx && (#[trigger] records0[i]).cid == c,
                forall|q: PortClaim|
                    app.pool.port_claimed(q) <==> exists|i: int, k: int|
                        0 <= i < idx && 0 <= k < records0[i].manifest.port_map@.len() && q
                            == spec_port_claim(#[trigger] records0[i].manifest.port_map@[k]),
            decreases n - idx,
        {
            let ghost tail0 = records@;
            let rec = records.remove(0);
            proof {
                assert(rec == records0[idx as int]);
                assert forall|j: int| 0 <= j < records@.len() implies records@[j] == records0[
                    idx + 1 + j
                ] by {
                    assert(records@[j] == tail0[j + 1]);
                }
            }
            let ghost app_head = app;
            if app.find_vm_index(rec.manifest.id.as_str()).is_some() {
                proof {
                    let w = choose|w: int|
                        0 <= w < app.instances@.len() && (#[trigger] app.instances@[w]).manifest.id@
                            == rec.manifest.id@;
                    assert(records0[w].manifest.id@ == records0[idx as int].manifest.id@);
                    assert(!spec_records_consistent(records0));
                }
                return Err(VmmError::Conflict);
            }
            if !app.pool.claim_cid(rec.cid) {
                proof {
                    assert(app_head.pool.cid_claimed(rec.cid));
                    let w = choose|w: int| 0 <= w < idx && (#[trigger] records0[w]).cid == rec.cid;
                    assert(records0[w].cid == records0[idx as int].cid);
                    assert(!spec_records_consistent(records0));
                }
                return Err(VmmError::Conflict);
            }
            let ghost pool_c = app.pool;
            let nports = rec.manifest.port_map.len();
            let mut k: usize = 0;
            while k < nports
                invariant
                    0 <= k <= nports,
                    nports == rec.manifest.port_map@.len(),
                    app.config == app_head.config,
                    app.images@ == app_head.images@,
                    app.instances@ == app_head.instances@,
                    app.pool.wf(),
                    app.pool.cid_start == pool_c.cid_start,
                    app.pool.cid_pool_size == pool_c.cid_pool_size,
                    app.pool.claimed_cids@ == pool_c.claimed_cids@,
                    forall|q: PortClaim|
                        app.pool.port_claimed(q) <==> (pool_c.port_claimed(q) || exists|l: int|
                            0 <= l < k && q == spec_port_claim(
                                #[trigger] rec.manifest.port_map@[l],
                            )),
                    forall|l: int|
                        0 <= l < k ==> !pool_c.port_claimed(
                            spec_port_claim(#[trigger] rec.manifest.port_map@[l]),
                        ),
                    forall|l1: int, l2: int|
                        #![trigger rec.manifest.port_map@[l1], rec.manifest.port_map@[l2]]
                        0 <= l1 < l2 < k ==> spec_port_claim(rec.manifest.port_map@[l1])
                            != spec_port_claim(rec.manifest.port_map@[l2]),
                decreases nports - k,
            {
                let m = &rec.manifest.port_map[k];
                let claim = PortClaim { protocol: m.protocol, port: m.from };
                proof {
                    assert(claim == spec_port_claim(rec.manifest.port_map@[k as int]));
                }
                match app.pool.claim_port(claim) {
                    Ok(()) => {},
                    Err(_) => {
                        proof {
                            if pool_c.port_claimed(claim) {
                                assert(pool_c.claimed_ports@ == app_head.pool.claimed_ports@);
                                assert(app_head.pool.port_claimed(claim));
                                let (w, wk) = choose|i: int, k2: int|
                                    0 <= i < idx && 0 <= k2
                                        < records0[i].manifest.port_map@.len() && claim
                                        == spec_port_claim(
                                        #[trigger] records0[i].manifest.port_map@[k2],
                                    );
                                assert(spec_port_claim(records0[w].manifest.port_map@[wk])
                                    == spec_port_claim(
                                    records0[idx as int].manifest.port_map@[k as int],
                                ));
                            } else {
                                let wl = choose|l: int|
                                    0 <= l < k && claim == spec_port_claim(
                                        #[trigger] rec.manifest.port_map@[l],
                                    );
                                assert(spec_port_claim(records0[idx as int].manifest.port_map@[wl])
                                    == spec_port_claim(
                                    records0[idx as int].manifest.port_map@[k as int],
                                ));
                            }
                            assert(!spec_records_consistent(records0));
                        }
                        return Err(VmmError::Conflict);
                    },
                }
                k = k + 1;
            }
            app.instances.push(rec);
            proof {
                let f = app;
                let ni = idx as int;
                assert forall|i: int| 0 <= i < ni implies (#[trigger] f.instances@[i]).manifest.id@
                    != f.instances@[ni].manifest.id@ by {
                    if app_head.instances@[i].manifest.id@ == rec.manifest.id@ {
                        assert(app_head.spec_has_vm(rec.manifest.id@));
                    }
                }
                assert forall|i: int| 0 <= i < ni implies (#[trigger] f.instances@[i]).cid
                    != f.instances@[ni].cid by {
                    if records0[i].cid == rec.cid {
                        assert(app_head.pool.cid_claimed(rec.cid));
                    }
                }
                assert(f.ids_distinct());
                assert(f.cids_distinct());
                assert forall|i: int| 0 <= i <= ni implies f.pool.cid_claimed(
                    #[trigger] f.instances@[i].cid,
                ) by {}
                assert forall|i: int, k2: int| f.claim_index_ok(i, k2) implies f.pool.port_claimed(
                    #[trigger] f.inst_claim(i, k2),
                ) by {
                    if i < ni {
                        assert(f.inst_claim(i, k2) == app_head.inst_claim(i, k2));
                        assert(app_head.pool.port_claimed(app_head.inst_claim(i, k2)));
                        assert(pool_c.claimed_ports@ == app_head.pool.claimed_ports@);
                        assert(pool_c.port_claimed(f.inst_claim(i, k2)));
                    } else {
                        assert(f.inst_claim(i, k2) == spec_port_claim(
                            rec.manifest.port_map@[k2],
                        ));
                    }
                }
                assert forall|i: int, k2: int, j: int, l2: int|
                    f.claim_index_ok(i, k2) && f.claim_index_ok(j, l2) && (i != j || k2
                        != l2) implies #[trigger] f.inst_claim(i, k2) != #[trigger] f.inst_claim(
                    j,
                    l2,
                ) by {
                    if i < ni && j < ni {
                        assert(f.inst_claim(i, k2) == spec_port_claim(
                            records0[i].manifest.port_map@[k2],
                        ));
                        assert(f.inst_claim(j, l2) == spec_port_claim(
                            records0[j].manifest.port_map@[l2],
                        ));
                    } else if i < ni && j == ni {
                        assert(f.inst_claim(i, k2) == app_head.inst_claim(i, k2));
                        assert(app_head.pool.port_claimed(app_head.inst_claim(i, k2)));
                        assert(pool_c.claimed_ports@ == app_head.pool.claimed_ports@);
                        assert(pool_c.port_claimed(f.inst_claim(i, k2)));
                        assert(f.inst_claim(j, l2) == spec_port_claim(
                            rec.manifest.port_map@[l2],
                        ));
                        assert(!pool_c.port_claimed(spec_port_claim(
                            rec.manifest.port_map@[l2],
                        )));
                    } else if i == ni && j < ni {
                        assert(f.inst_claim(j, l2) == app_head.inst_claim(j, l2));
                        assert(app_head.pool.port_claimed(app_head.inst_claim(j, l2)));
                        assert(pool_c.claimed_ports@ == app_head.pool.claimed_ports@);
                        assert(pool_c.port_claimed(f.inst_claim(j, l2)));
                        assert(f.inst_claim(i, k2) == spec_port_claim(
                            rec.manifest.port_map@[k2],
                        ));
                        assert(!pool_c.port_claimed(spec_port_claim(
                            rec.manifest.port_map@[k2],
                        )));
                    } else {
                        assert(f.inst_claim(i, k2) == spec_port_claim(
                            rec.manifest.port_map@[k2],
                        ));
                        assert(f.inst_claim(j, l2) == spec_port_claim(
                            rec.manifest.port_map@[l2],
                        ));
                    }
                }
            }
            proof {
                assert forall|c: u32| app.pool.cid_claimed(c) implies exists|i: int|
                    0 <= i < idx + 1 && (#[trigger] records0[i]).cid == c by {
                    assert(pool_c.claimed_cids@ == app.pool.claimed_cids@);
                    if c == rec.cid {
                        assert(records0[idx as int].cid == c);
                    } else {
                        assert(app_head.pool.cid_claimed(c));
                        let w = choose|i: int| 0 <= i < idx && (#[trigger] records0[i]).cid == c;
                        assert(0 <= w < idx + 1 && records0[w].cid == c);
                    }
                }
                assert forall|i: int| 0 <= i < idx + 1 implies app.pool.cid_claimed(
                    (#[trigger] records0[i]).cid,
                ) by {
                    if i < idx {
                        assert(app_head.pool.cid_claimed(records0[i].cid));
                        assert(pool_c.cid_claimed(records0[i].cid));
                    } else {
                        assert(records0[i].cid == rec.cid);
                        assert(pool_c.cid_claimed(rec.cid));
                    }
                }
                assert forall|q: PortClaim| app.pool.port_claimed(q) implies exists|i: int, k2: int|
                    0 <= i < idx + 1 && 0 <= k2 < records0[i].manifest.port_map@.len() && q
                        == spec_port_claim(#[trigger] records0[i].manifest.port_map@[k2]) by {
                    if pool_c.port_claimed(q) {
                        assert(pool_c.claimed_ports@ == app_head.pool.claimed_ports@);
                        assert(app_head.pool.port_claimed(q));
                        let (w, wk) = choose|i: int, k2: int|
                            0 <= i < idx && 0 <= k2 < records0[i].manifest.port_map@.len() && q
                                == spec_port_claim(#[trigger] records0[i].manifest.port_map@[k2]);
                        assert(0 <= w < idx + 1 && 0 <= wk
                            < records0[w].manifest.port_map@.len() && q == spec_port_claim(
                            records0[w].manifest.port_map@[wk],
                        ));
                    } else {
                        let wl = choose|l: int|
                            0 <= l < rec.manifest.port_map@.len() && q == spec_port_claim(
                                #[trigger] rec.manifest.port_map@[l],
                            );
                        assert(0 <= wl < records0[idx as int].manifest.port_map@.len() && q
                            == spec_port_claim(records0[idx as int].manifest.port_map@[wl]));
                    }
                }
                assert forall|i: int, k2: int|
                    0 <= i < idx + 1 && 0 <= k2
                        < records0[i].manifest.port_map@.len() implies app.pool.port_claimed(
                    spec_port_claim(#[trigger] records0[i].manifest.port_map@[k2]),
                ) by {
                    if i < idx {
                        assert(app_head.pool.port_claimed(spec_port_claim(
                            records0[i].manifest.port_map@[k2],
                        )));
                        assert(pool_c.claimed_ports@ == app_head.pool.claimed_ports@);
                        assert(pool_c.port_claimed(spec_port_claim(
                            records0[i].manifest.port_map@[k2],
                        )));
                    } else {
                        assert(records0[i].manifest.port_map@[k2]
                            == rec.manifest.port_map@[k2]);
                    }
                }
            }
            idx = idx + 1;
        }
        proof {
            assert(app.instances@ =~= records0);
            assert forall|i: int, j: int|
                #![trigger records0[i], records0[j]]
                0 <= i < j < records0.len() implies records0[i].manifest.id@
                != records0[j].manifest.id@ && records0[i].cid != records0[j].cid by {
                assert(app.instances@[i] == records0[i]);
                assert(app.instances@[j] == records0[j]);
                assert(app.instances@[i].manifest.id@ != app.instances@[j].manifest.id@);
                assert(app.instances@[i].cid != app.instances@[j].cid);
            }
            assert forall|i: int, k: int, j: int, l: int|
                #![trigger records0[i].manifest.port_map@[k], records0[j].manifest.port_map@[l]]
                0 <= i < records0.len() && 0 <= k < records0[i].manifest.port_map@.len() && 0 <= j
                    < records0.len() && 0 <= l < records0[j].manifest.port_map@.len() && (i != j
                    || k != l) implies spec_port_claim(records0[i].manifest.port_map@[k])
                != spec_port_claim(records0[j].manifest.port_map@[l]) by {
                assert(app.inst_claim(i, k) == spec_port_claim(records0[i].manifest.port_map@[k]));
                assert(app.inst_claim(j, l) == spec_port_claim(records0[j].manifest.port_map@[l]));
                assert(app.inst_claim(i, k) != app.inst_claim(j, l));
            }
            assert(spec_records_consistent(records0));
        }
        Ok(app)
    }
}

/// Law: instance ids are unique across the live records — no two
/// records ever hold the same id, so an id returned by a successful
/// create names exactly one instance as long as it is tracked.
pub proof fn lemma_instance_ids_unique(app: App, i: int, j: int)
    requires
        app.wf(),
        0 <= i < app.instances@.len(),
        0 <= j < app.instances@.len(),
        i != j,
    ensures
        app.instances@[i].manifest.id@ != app.instances@[j].manifest.id@,
{
}

/// Law: a create can only succeed under an id that no live record
/// holds — the returned id was never handed out and kept.
pub proof fn lemma_create_id_fresh(h: RpcHandler, req: VmConfiguration, id: Seq<char>)
    requires
        h.spec_create_outcome(req, id) is Ok,
    ensures
        !h.app.spec_has_vm(id),
{
}

/// Law: the port-mapping switch.  With the feature disabled and a valid
/// name, a create requesting any port fails as a validation error, and
/// one requesting none is refused only for the remaining reasons — a
/// taken id, a missing image or root filesystem hash, or an exhausted
/// CID pool.
pub proof fn lemma_port_mapping_switch(h: RpcHandler, req: VmConfiguration, id: Seq<char>)
    requires
        !h.app.config.cvm.port_mapping.enabled,
        spec_valid_label(req.name@),
    ensures
        req.ports@.len() > 0 ==> h.spec_create_outcome(req, id) == Err::<(), VmmError>(
            VmmError::Validation,
        ),
        req.ports@.len() == 0 ==> (h.spec_create_outcome(req, id) is Ok <==> (!h.app.spec_has_vm(
            id,
        ) && h.app.spec_has_image(req.image@) && h.app.images@[h.app.spec_image_index(
            req.image@,
        )].rootfs_hash is Some && !h.app.pool.exhausted())),
{
}

/// Law: removal is complete — after a successful removal no record with
/// the id remains, so a second removal of the same id reports NotFound.
pub proof fn lemma_removed_vm_gone(o: App, f: App, id: Seq<char>)
    requires
        o.wf(),
        o.spec_has_vm(id),
        f.instances@ == o.instances@.remove(o.spec_vm_index(id)),
    ensures
        !f.spec_has_vm(id),
{
    let vi = o.spec_vm_index(id);
    assert(0 <= vi < o.instances@.len() && o.instances@[vi].manifest.id@ == id);
    o.instances@.remove_ensures(vi);
    if f.spec_has_vm(id) {
        let w = choose|i: int|
            0 <= i < f.instances@.len() && (#[trigger] f.instances@[i]).manifest.id@ == id;
        if w < vi {
            assert(o.instances@[w].manifest.id@ == id);
            assert(o.instances@[w].manifest.id@ != o.instances@[vi].manifest.id@);
        } else {
            assert(o.instances@[w + 1].manifest.id@ == id);
            assert(o.instances@[vi].manifest.id@ != o.instances@[w + 1].manifest.id@);
        }
    }
}

} // verus!
