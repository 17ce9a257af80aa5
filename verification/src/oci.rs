//! The runtime-specification data model: the fields of the configuration
//! document that the launch core consumes, held as plain values.
//!
//! Deserialization of the on-disk document is not done here; the driver
//! around the library reads the document and hands over values of these
//! types.

use vstd::prelude::*;
use std::collections::HashMap;

verus! {

/// The deserialized configuration for one container instance.
#[derive(Debug)]
pub struct Spec {
    pub oci_version: String,
    pub root: Root,
    pub mounts: Vec<Mount>,
    pub process: Process,
    pub hostname: String,
    pub linux: Option<Linux>,
    pub hooks: Option<Hooks>,
    pub annotations: HashMap<String, String>,
}

/// The root filesystem to pivot into.
#[derive(Debug)]
pub struct Root {
    pub path: String,
    pub readonly: bool,
}

/// A single mount entry of the specification (consumed by collaborators,
/// carried through unchanged here).
#[derive(Debug)]
pub struct Mount {
    pub destination: String,
    pub typ: String,
    pub source: String,
    pub options: Vec<String>,
}

/// The payload process: command, environment, working directory and the
/// per-process adjustments applied before the namespace setup.
#[derive(Debug)]
pub struct Process {
    pub terminal: bool,
    pub console_size: ConsoleSize,
    pub cwd: String,
    pub env: Vec<String>,
    pub args: Vec<String>,
    pub rlimits: Vec<Rlimit>,
    pub apparmor_profile: String,
    pub capabilities: Vec<Capability>,
    pub no_new_privileges: bool,
    pub oom_score_adj: Option<i64>,
    pub selinux_label: String,
    pub user: User,
}

#[derive(Clone, Copy, Debug, PartialEq, Eq, Structural)]
pub struct ConsoleSize {
    pub height: u64,
    pub width: u64,
}

impl Default for ConsoleSize {
    fn default() -> (c: ConsoleSize)
        ensures
            c.height == 0,
            c.width == 0,
    {
        ConsoleSize { height: 0, width: 0 }
    }
}

/// One resource-limit entry: the limit's name and its soft and hard values.
#[derive(Debug)]
pub struct Rlimit {
    pub typ: String,
    pub soft: u64,
    pub hard: u64,
}

#[derive(Debug)]
pub struct Capability {
    pub effective: Vec<CapabilityType>,
    pub bounding: Vec<CapabilityType>,
    pub inheritable: Vec<CapabilityType>,
    pub permitted: Vec<CapabilityType>,
    pub ambient: Vec<CapabilityType>,
}

#[allow(non_camel_case_types)]
#[derive(Clone, Copy, Debug, PartialEq, Eq, Structural)]
pub enum CapabilityType {
    CAP_CHOWN,
    CAP_DAC_OVERRIDE,
    CAP_DAC_READ_SEARCH,
    CAP_FOWNER,
    CAP_FSETID,
    CAP_KILL,
    CAP_SETGID,
    CAP_SETUID,
    CAP_SETPCAP,
    CAP_LINUX_IMMUTABLE,
    CAP_NET_BIND_SERVICE,
    CAP_NET_BROADCAST,
    CAP_NET_ADMIN,
    CAP_NET_RAW,
    CAP_IPC_LOCK,
    CAP_IPC_OWNER,
    CAP_SYS_MODULE,
    CAP_SYS_RAWIO,
    CAP_SYS_CHROOT,
    CAP_SYS_PTRACE,
    CAP_SYS_PACCT,
    CAP_SYS_ADMIN,
    CAP_SYS_BOOT,
    CAP_SYS_NICE,
    CAP_SYS_RESOURCE,
    CAP_SYS_TIME,
    CAP_SYS_TTY_CONFIG,
    CAP_MKNOD,
    CAP_LEASE,
    CAP_AUDIT_WRITE,
    CAP_AUDIT_CONTROL,
    CAP_SETFCAP,
    CAP_MAC_OVERRIDE,
    CAP_MAC_ADMIN,
    CAP_SYSLOG,
    CAP_WAKE_ALERM,
    CAP_BLOCK_SUSPEND,
    CAP_AUDIT_READ,
}

#[derive(Debug)]
pub struct User {
    pub uid: i64,
    pub gid: i64,
    pub additional_gids: Vec<i64>,
    pub username: String,
}

/// The Linux-specific section: the ordered namespace requests and the
/// user-namespace ID mappings consumed by the launch core.
#[derive(Debug)]
pub struct Linux {
    pub namespaces: Vec<Namespace>,
    pub uid_mappings: Vec<Mapping>,
    pub gid_mappings: Vec<Mapping>,
    pub devices: Vec<Device>,
    pub cgroup_path: String,
    pub resources: Option<Resources>,
}

/// One namespace request: an empty `path` asks for a new namespace of this
/// kind, a non-empty `path` asks to join the namespace behind that file.
#[derive(Debug)]
pub struct Namespace {
    pub typ: NamespaceType,
    pub path: String,
}

#[allow(non_camel_case_types)]
#[derive(Clone, Copy, Debug, PartialEq, Eq, Hash, Structural)]
pub enum NamespaceType {
    pid,
    network,
    mount,
    ipc,
    uts,
    user,
    cgroup,
}

/// A contiguous ID-mapping range for a user namespace.
#[derive(Clone, Copy, Debug, PartialEq, Eq, Structural)]
pub struct Mapping {
    pub container_id: u32,
    pub host_id: u32,
    pub size: u32,
}

#[derive(Debug)]
pub struct Device {
    pub typ: DeviceType,
    pub path: String,
    pub major: u64,
    pub minor: u64,
    pub file_mode: u32,
    pub uid: u32,
    pub gid: u32,
}

#[allow(non_camel_case_types)]
#[derive(Clone, Copy, Debug, PartialEq, Eq, Structural)]
pub enum DeviceType {
    b,
    c,
    u,
    p,
    a,
}

impl Default for DeviceType {
    fn default() -> (d: DeviceType)
        ensures
            d == DeviceType::a,
    {
        DeviceType::a
    }
}

#[derive(Debug)]
pub struct Resources {
    pub devices: Vec<DeviceCgroup>,
    pub memory: Option<MemoryCgroup>,
    pub cpu: Option<CpuCgroup>,
    pub block_io: Option<BlockIo>,
    pub hugepage_limits: Vec<HugepageLimit>,
    pub network: Option<Network>,
    pub pids: Option<Pids>,
}

#[derive(Debug)]
pub struct DeviceCgroup {
    pub allow: bool,
    pub typ: String,
    pub major: i64,
    pub minor: i64,
    pub access: String,
}

#[derive(Clone, Copy, Debug, PartialEq, Eq, Structural)]
pub struct MemoryCgroup {
    pub limit: i64,
    pub reservation: i64,
    pub swap: i64,
    pub kernel: i64,
    pub kernel_tcp: i64,
    pub swappiness: u64,
    pub disable_oom_killer: bool,
}

#[derive(Debug)]
pub struct CpuCgroup {
    pub shares: u64,
    pub quota: i64,
    pub period: u64,
    pub realtime_runtime: i64,
    pub realtime_period: u64,
    pub cpus: String,
    pub mems: String,
}

#[derive(Debug)]
pub struct BlockIo {
    pub weight: u16,
    pub leaf_weight: u16,
    pub weight_device: Vec<WeightDevice>,
    pub throttle_read_bps_device: Vec<BpsDevice>,
    pub throttle_write_bps_device: Vec<BpsDevice>,
}

#[derive(Clone, Copy, Debug, PartialEq, Eq, Structural)]
pub struct WeightDevice {
    pub major: i64,
    pub minor: i64,
    pub weight: u16,
    pub leaf_weight: u16,
}

#[derive(Clone, Copy, Debug, PartialEq, Eq, Structural)]
pub struct BpsDevice {
    pub major: i64,
    pub minor: i64,
    pub rate: u64,
}

#[derive(Debug)]
pub struct HugepageLimit {
    pub page_size: String,
    pub limit: u64,
}

#[derive(Debug)]
pub struct Network {
    pub class_id: u32,
    pub priorities: Vec<Priority>,
}

#[derive(Debug)]
pub struct Priority {
    pub name: String,
    pub priority: u32,
}

#[derive(Clone, Copy, Debug, PartialEq, Eq, Structural)]
pub struct Pids {
    pub limit: i64,
}

#[derive(Debug)]
pub struct Hooks {
    pub prestart: Vec<Hook>,
    pub poststart: Vec<Hook>,
    pub poststop: Vec<Hook>,
}

#[derive(Debug)]
pub struct Hook {
    pub path: String,
    pub args: Vec<String>,
    pub env: Vec<String>,
    pub timeout: Option<i64>,
}

} // verus!
