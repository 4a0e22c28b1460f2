//! The application compose specification.
//!
//! One shared schema for the compose document, parsed from JSON through
//! the opaque value wrappers in `crate::jsonval` and assembled and
//! checked by verified code: the version, name and runner members are
//! required, everything else defaults.  Upgrades additionally require a
//! container-runner payload (`docker_compose_file`).  What each parsing
//! function accepts and returns is stated exactly over the named parse
//! (`spec_json_parse`) of the input text.

use vstd::prelude::*;

use crate::error::VmmError;
use crate::jsonval::{
    json_as_array, json_as_bool, json_as_string, json_as_u64, json_get, json_is_null,
    json_is_object, json_parse, json_rep, spec_json_parse, spec_member, JsonData,
};
use crate::strutil::str_eq;

verus! {

/// Docker registry access settings carried in a compose specification.
#[derive(Clone, Debug)]
pub struct DockerConfig {
    /// The URL of the Docker registry.
    pub registry: Option<String>,
    /// The username of the registry account.
    pub username: Option<String>,
    /// The key of the encrypted environment variable holding the
    /// registry account token.
    pub token_key: Option<String>,
}

impl DockerConfig {
    /// All settings absent.
    pub open spec fn spec_is_default(self) -> bool {
        self.registry is None && self.username is None && self.token_key is None
    }
}

impl Default for DockerConfig {
    /// The empty settings.
    fn default() -> (r: DockerConfig)
        ensures
            r.spec_is_default(),
    {
        DockerConfig { registry: None, username: None, token_key: None }
    }
}

/// One application's compose specification, as this host reads it.
#[derive(Clone, Debug)]
pub struct AppCompose {
    pub manifest_version: u32,
    pub name: String,
    /// Deprecated feature list; still honoured by the feature queries.
    pub features: Vec<String>,
    pub runner: String,
    /// The container-runner payload; required for upgrades.
    pub docker_compose_file: Option<String>,
    pub docker_config: DockerConfig,
    pub public_logs: bool,
    pub public_sysinfo: bool,
    pub kms_enabled: bool,
    pub tproxy_enabled: bool,
}

impl AppCompose {
    /// Whether the deprecated feature list names `feature`.
    pub open spec fn spec_feature_enabled(self, feature: Seq<char>) -> bool {
        exists|i: int|
            0 <= i < self.features@.len() && (#[trigger] self.features@[i])@ == feature
    }

    /// Whether the deprecated feature list names `feature`.
    pub fn feature_enabled(&self, feature: &str) -> (r: bool)
        ensures
            r == self.spec_feature_enabled(feature@),
    {
        let n = self.features.len();
        let mut i: usize = 0;
        while i < n
            invariant
                n == self.features@.len(),
                0 <= i <= n,
                forall|j: int| 0 <= j < i ==> (#[trigger] self.features@[j])@ != feature@,
            decreases n - i,
        {
            if str_eq(self.features[i].as_str(), feature) {
                return true;
            }
            i = i + 1;
        }
        false
    }

    /// Whether guest traffic goes through the TProxy gateway: the flag,
    /// or the deprecated feature name.
    pub fn tproxy_enabled(&self) -> (r: bool)
        ensures
            r == (self.tproxy_enabled || self.spec_feature_enabled("tproxy-net"@)),
    {
        self.tproxy_enabled || self.feature_enabled("tproxy-net")
    }

    /// Whether the application uses the KMS: the flag, or the deprecated
    /// feature name.
    pub fn kms_enabled(&self) -> (r: bool)
        ensures
            r == (self.kms_enabled || self.spec_feature_enabled("kms"@)),
    {
        self.kms_enabled || self.feature_enabled("kms")
    }
}

/// Host-supplied settings a guest reads from its shared configuration
/// file.
#[derive(Clone, Debug)]
pub struct LocalConfig {
    /// Expected digest of the root filesystem, as raw bytes.
    pub rootfs_hash: Vec<u8>,
    pub kms_url: Option<String>,
    pub tproxy_url: Option<String>,
    pub docker_registry: Option<String>,
    pub host_api_url: String,
}

/// Key material an application receives from the KMS.
#[derive(Clone, Debug)]
pub struct AppKeys {
    pub app_key: String,
    pub disk_crypt_key: String,
    pub env_crypt_key: Vec<u8>,
    pub certificate_chain: Vec<String>,
}

/// The value of an optional boolean member that defaults to false.
pub open spec fn spec_flag(o: Option<bool>) -> bool {
    match o {
        Some(b) => b,
        None => false,
    }
}

/// Whether an optional string member is well-typed: absent, null or a
/// string.
pub open spec fn spec_opt_string_ok(d: JsonData, key: Seq<char>) -> bool {
    match spec_member(d, key) {
        None => true,
        Some(x) => x is Null || x is Str,
    }
}

/// Whether an optional boolean member is well-typed: absent or a
/// boolean.
pub open spec fn spec_opt_bool_ok(d: JsonData, key: Seq<char>) -> bool {
    match spec_member(d, key) {
        None => true,
        Some(x) => x is Bool,
    }
}

/// The flag a boolean member yields: its value when present, false
/// when absent.
pub open spec fn spec_flag_of(d: JsonData, key: Seq<char>) -> bool {
    match spec_member(d, key) {
        Some(JsonData::Bool(b)) => b,
        _ => false,
    }
}

/// Whether a JSON value is an array of strings.
pub open spec fn spec_string_list_ok(x: JsonData) -> bool {
    match x {
        JsonData::Arr(es) => forall|i: int| 0 <= i < es.len() ==> (#[trigger] es[i]) is Str,
        _ => false,
    }
}

/// Whether the docker_config member, if present, is a well-typed
/// object.
pub open spec fn spec_docker_config_ok(d: JsonData) -> bool {
    match spec_member(d, "docker_config"@) {
        None => true,
        Some(x) => {
            &&& x is Obj
            &&& spec_opt_string_ok(x, "registry"@)
            &&& spec_opt_string_ok(x, "username"@)
            &&& spec_opt_string_ok(x, "token_key"@)
        },
    }
}

/// Whether a text parses as a well-typed compose document: well-formed
/// JSON whose version (fitting 32 bits), name and runner members are
/// present with the right types, and whose optional members, where
/// present, are well-typed.
pub open spec fn spec_compose_valid(s: Seq<char>) -> bool {
    match spec_json_parse(s) {
        None => false,
        Some(d) => {
            &&& (match spec_member(d, "manifest_version"@) {
                Some(JsonData::Num(Some(v))) => v <= u32::MAX,
                _ => false,
            })
            &&& spec_member(d, "name"@) matches Some(JsonData::Str(_))
            &&& spec_member(d, "runner"@) matches Some(JsonData::Str(_))
            &&& spec_opt_string_ok(d, "docker_compose_file"@)
            &&& (match spec_member(d, "features"@) {
                None => true,
                Some(x) => spec_string_list_ok(x),
            })
            &&& spec_docker_config_ok(d)
            &&& spec_opt_bool_ok(d, "public_logs"@)
            &&& spec_opt_bool_ok(d, "public_sysinfo"@)
            &&& spec_opt_bool_ok(d, "kms_enabled"@)
            &&& spec_opt_bool_ok(d, "tproxy_enabled"@)
        },
    }
}

/// Whether an optional string field equals what the member denotes: the
/// member's string when it is one, absent otherwise.
pub open spec fn spec_opt_string_matches(d: JsonData, key: Seq<char>, o: Option<String>) -> bool {
    match o {
        Some(s) => spec_member(d, key) == Some(JsonData::Str(s@)),
        None => !(spec_member(d, key) matches Some(JsonData::Str(_))),
    }
}

/// Whether `c` is the compose record the parsed tree `d` denotes.
pub open spec fn spec_compose_matches(d: JsonData, c: AppCompose) -> bool {
    &&& spec_member(d, "manifest_version"@) == Some(
        JsonData::Num(Some(c.manifest_version as u64)),
    )
    &&& spec_member(d, "name"@) == Some(JsonData::Str(c.name@))
    &&& spec_member(d, "runner"@) == Some(JsonData::Str(c.runner@))
    &&& spec_opt_string_matches(d, "docker_compose_file"@, c.docker_compose_file)
    &&& (match spec_member(d, "features"@) {
        Some(JsonData::Arr(es)) => c.features@.len() == es.len() && forall|i: int|
            0 <= i < es.len() ==> es[i] == JsonData::Str((#[trigger] c.features@[i])@),
        _ => c.features@.len() == 0,
    })
    &&& (match spec_member(d, "docker_config"@) {
        Some(x) => {
            &&& spec_opt_string_matches(x, "registry"@, c.docker_config.registry)
            &&& spec_opt_string_matches(x, "username"@, c.docker_config.username)
            &&& spec_opt_string_matches(x, "token_key"@, c.docker_config.token_key)
        },
        None => c.docker_config.spec_is_default(),
    })
    &&& c.public_logs == spec_flag_of(d, "public_logs"@)
    &&& c.public_sysinfo == spec_flag_of(d, "public_sysinfo"@)
    &&& c.kms_enabled == spec_flag_of(d, "kms_enabled"@)
    &&& c.tproxy_enabled == spec_flag_of(d, "tproxy_enabled"@)
}

/// Whether a text is accepted by the upgrade schema check: a valid
/// compose document that declares a container-runner payload.
pub open spec fn spec_compose_upgradable(s: Seq<char>) -> bool {
    &&& spec_compose_valid(s)
    &&& (match spec_json_parse(s) {
        Some(d) => spec_member(d, "docker_compose_file"@) matches Some(JsonData::Str(_)),
        None => false,
    })
}

/// Assembles a compose record from its parsed members.  The version,
/// name and runner are required (and the version must fit in 32 bits);
/// every other member falls back to its default.
pub fn app_compose_from_fields(
    manifest_version: Option<u64>,
    name: Option<String>,
    runner: Option<String>,
    docker_compose_file: Option<String>,
    features: Option<Vec<String>>,
    docker_config: Option<DockerConfig>,
    public_logs: Option<bool>,
    public_sysinfo: Option<bool>,
    kms_enabled: Option<bool>,
    tproxy_enabled: Option<bool>,
) -> (r: Result<AppCompose, VmmError>)
    ensures
        r is Ok <==> (manifest_version matches Some(v) && v <= u32::MAX && name is Some
            && runner is Some),
        r matches Err(e) ==> e == VmmError::Validation,
        r matches Ok(c) ==> {
            &&& c.manifest_version == manifest_version->Some_0 as u32
            &&& c.name == name->Some_0
            &&& c.runner == runner->Some_0
            &&& c.docker_compose_file == docker_compose_file
            &&& (match features {
                Some(f) => c.features == f,
                None => c.features@.len() == 0,
            })
            &&& (match docker_config {
                Some(d) => c.docker_config == d,
                None => c.docker_config.spec_is_default(),
            })
            &&& c.public_logs == spec_flag(public_logs)
            &&& c.public_sysinfo == spec_flag(public_sysinfo)
            &&& c.kms_enabled == spec_flag(kms_enabled)
            &&& c.tproxy_enabled == spec_flag(tproxy_enabled)
        },
{
    let mv64 = match manifest_version {
        Some(v) => v,
        None => return Err(VmmError::Validation),
    };
    if mv64 > 0xffff_ffff {
        return Err(VmmError::Validation);
    }
    let name = match name {
        Some(n) => n,
        None => return Err(VmmError::Validation),
    };
    let runner = match runner {
        Some(x) => x,
        None => return Err(VmmError::Validation),
    };
    Ok(
        AppCompose {
            manifest_version: mv64 as u32,
            name,
            features: match features {
                Some(f) => f,
                None => Vec::new(),
            },
            runner,
            docker_compose_file,
            docker_config: match docker_config {
                Some(d) => d,
                None => Default::default(),
            },
            public_logs: match public_logs {
                Some(b) => b,
                None => false,
            },
            public_sysinfo: match public_sysinfo {
                Some(b) => b,
                None => false,
            },
            kms_enabled: match kms_enabled {
                Some(b) => b,
                None => false,
            },
            tproxy_enabled: match tproxy_enabled {
                Some(b) => b,
                None => false,
            },
        },
    )
}

/// Reads a JSON array of strings; anything else is a validation error.
fn parse_string_list(v: &serde_json::Value) -> (r: Result<Vec<String>, VmmError>)
    ensures
        r is Ok <==> spec_string_list_ok(json_rep(*v)),
        r matches Ok(out) ==> (json_rep(*v) matches JsonData::Arr(es) && out@.len() == es.len()
            && forall|i: int|
            0 <= i < es.len() ==> es[i] == JsonData::Str((#[trigger] out@[i])@)),
        r matches Err(e) ==> e == VmmError::Validation,
{
    let arr = match json_as_array(v) {
        Some(a) => a,
        None => return Err(VmmError::Validation),
    };
    let ghost es = json_rep(*v)->Arr_0;
    let n = arr.len();
    let mut out: Vec<String> = Vec::new();
    let mut i: usize = 0;
    while i < n
        invariant
            n == arr@.len(),
            n == es.len(),
            json_rep(*v) == JsonData::Arr(es),
            forall|j: int| 0 <= j < es.len() ==> json_rep(#[trigger] arr@[j]) == es[j],
            0 <= i <= n,
            out@.len() == i,
            forall|j: int| 0 <= j < i ==> es[j] == JsonData::Str((#[trigger] out@[j])@),
        decreases n - i,
    {
        match json_as_string(&arr[i]) {
            Some(s) => out.push(s),
            None => {
                proof {
                    assert(!((es[i as int]) is Str));
                }
                return Err(VmmError::Validation);
            },
        }
        i = i + 1;
    }
    proof {
        assert forall|j: int| 0 <= j < es.len() implies (#[trigger] es[j]) is Str by {
            assert(es[j] == JsonData::Str((out@[j])@));
        }
    }
    Ok(out)
}

/// Reads an optional string member: absent or null is `None`; any other
/// non-string value is a validation error.
fn get_opt_string(v: &serde_json::Value, key: &str) -> (r: Result<Option<String>, VmmError>)
    ensures
        r is Ok <==> spec_opt_string_ok(json_rep(*v), key@),
        r matches Ok(o) ==> spec_opt_string_matches(json_rep(*v), key@, o),
        r matches Err(e) ==> e == VmmError::Validation,
{
    match json_get(v, key) {
        None => Ok(None),
        Some(x) => {
            if json_is_null(x) {
                Ok(None)
            } else {
                match json_as_string(x) {
                    Some(s) => Ok(Some(s)),
                    None => Err(VmmError::Validation),
                }
            }
        },
    }
}

/// Reads an optional boolean member: absent is `None`; any non-boolean
/// value is a validation error.
fn get_opt_bool(v: &serde_json::Value, key: &str) -> (r: Result<Option<bool>, VmmError>)
    ensures
        r is Ok <==> spec_opt_bool_ok(json_rep(*v), key@),
        r matches Ok(o) ==> o == (match spec_member(json_rep(*v), key@) {
            Some(JsonData::Bool(b)) => Some(b),
            _ => None::<bool>,
        }),
        r matches Err(e) ==> e == VmmError::Validation,
{
    match json_get(v, key) {
        None => Ok(None),
        Some(x) => match json_as_bool(x) {
            Some(b) => Ok(Some(b)),
            None => Err(VmmError::Validation),
        },
    }
}

/// Parses a compose specification from JSON text: accepts exactly the
/// well-typed documents (`spec_compose_valid`), and the record returned
/// holds exactly what the parsed tree denotes.
pub fn parse_app_compose(s: &str) -> (r: Result<AppCompose, VmmError>)
    ensures
        r is Ok <==> spec_compose_valid(s@),
        r matches Ok(c) ==> (spec_json_parse(s@) matches Some(d) && spec_compose_matches(d, c)),
        r matches Err(e) ==> e == VmmError::Validation,
{
    let v = match json_parse(s) {
        Some(v) => v,
        None => return Err(VmmError::Validation),
    };
    let ghost d = json_rep(v);
    let manifest_version = match json_get(&v, "manifest_version") {
        Some(x) => json_as_u64(x),
        None => None,
    };
    proof {
        assert(manifest_version == (match spec_member(d, "manifest_version"@) {
            Some(JsonData::Num(Some(u))) => Some(u),
            _ => None::<u64>,
        }));
    }
    let name = match json_get(&v, "name") {
        Some(x) => json_as_string(x),
        None => None,
    };
    proof {
        assert(match name {
            Some(ns) => spec_member(d, "name"@) == Some(JsonData::Str(ns@)),
            None => !(spec_member(d, "name"@) matches Some(JsonData::Str(_))),
        });
    }
    let runner = match json_get(&v, "runner") {
        Some(x) => json_as_string(x),
        None => None,
    };
    proof {
        assert(match runner {
            Some(rs) => spec_member(d, "runner"@) == Some(JsonData::Str(rs@)),
            None => !(spec_member(d, "runner"@) matches Some(JsonData::Str(_))),
        });
    }
    let docker_compose_file = match get_opt_string(&v, "docker_compose_file") {
        Ok(o) => o,
        Err(e) => return Err(e),
    };
    let features = match json_get(&v, "features") {
        None => None,
        Some(x) => match parse_string_list(x) {
            Ok(f) => Some(f),
            Err(e) => return Err(e),
        },
    };
    let docker_config = match json_get(&v, "docker_config") {
        None => None,
        Some(x) => {
            if !json_is_object(x) {
                return Err(VmmError::Validation);
            }
            let registry = match get_opt_string(x, "registry") {
                Ok(o) => o,
                Err(e) => return Err(e),
            };
            let username = match get_opt_string(x, "username") {
                Ok(o) => o,
                Err(e) => return Err(e),
            };
            let token_key = match get_opt_string(x, "token_key") {
                Ok(o) => o,
                Err(e) => return Err(e),
            };
            Some(DockerConfig { registry, username, token_key })
        },
    };
    let public_logs = match get_opt_bool(&v, "public_logs") {
        Ok(o) => o,
        Err(e) => return Err(e),
    };
    let public_sysinfo = match get_opt_bool(&v, "public_sysinfo") {
        Ok(o) => o,
        Err(e) => return Err(e),
    };
    let kms_enabled = match get_opt_bool(&v, "kms_enabled") {
        Ok(o) => o,
        Err(e) => return Err(e),
    };
    let tproxy_enabled = match get_opt_bool(&v, "tproxy_enabled") {
        Ok(o) => o,
        Err(e) => return Err(e),
    };
    let r = app_compose_from_fields(
        manifest_version,
        name,
        runner,
        docker_compose_file,
        features,
        docker_config,
        public_logs,
        public_sysinfo,
        kms_enabled,
        tproxy_enabled,
    );
    proof {
        if r is Ok {
            assert(spec_compose_valid(s@));
            assert(spec_compose_matches(d, r->Ok_0));
        } else {
            assert(!spec_compose_valid(s@));
        }
    }
    r
}

/// The schema check upgrades apply before writing a new compose
/// specification: accepts exactly the valid compose documents that
/// declare a container-runner payload — one without
/// `docker_compose_file` is rejected.
pub fn validate_app_compose(s: &str) -> (r: Result<AppCompose, VmmError>)
    ensures
        r is Ok <==> spec_compose_upgradable(s@),
        r matches Ok(c) ==> (c.docker_compose_file is Some && (spec_json_parse(s@) matches Some(d)
            && spec_compose_matches(d, c))),
        r matches Err(e) ==> e == VmmError::Validation,
{
    let c = match parse_app_compose(s) {
        Ok(c) => c,
        Err(e) => return Err(e),
    };
    if c.docker_compose_file.is_none() {
        return Err(VmmError::Validation);
    }
    Ok(c)
}

} // verus!
