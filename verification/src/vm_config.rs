//! The settings of a sandbox's virtual machine. Settings that are not named
//! here keep the hypervisor's defaults.
use vstd::prelude::*;

use crate::text::{
    decimal, decimal_text, fails_with, signed_decimal, signed_decimal_text, split_once,
    split_once_spec, text_eq, trim, trimmed, views,
};

verus! {

pub const IMAGE_PATH: &'static str = "/usr/local/services/cubetoolbox/cube-image/cube-guest-image-cpu.img";

pub const DEFAULT_AGENT_PATH: &'static str = "/usr/local/services/cubetoolbox/cube-agent/cube-agent.ext4";

pub const VIRTIO_FS_TAG: &'static str = "cubeShared";

pub const VIRTIO_FS_ID: &'static str = "cube-fs";

/// The bytes of a mebibyte.
pub const MI_B: u64 = 1_048_576;

/// How much is logged.
#[derive(Clone, Copy, Debug, PartialEq, Eq, Structural)]
pub enum LogLevel {
    Off,
    Error,
    Warn,
    Info,
    Debug,
    Trace,
}

/// The settings of a hypervisor.
#[derive(Debug, PartialEq, Eq)]
pub struct HypConfig {
    pub debug: bool,
    pub log_level: LogLevel,
    pub sandbox_id: String,
    pub ch_http_api: Option<String>,
}

/// What a hypervisor is started with.
#[derive(Debug, PartialEq, Eq)]
pub struct VmmConfig {
    pub sandbox_id: String,
    pub log_level: LogLevel,
    pub http_path: Option<String>,
}

impl HypConfig {
    /// What the hypervisor is started with.
    pub fn to_vmm_config(&self) -> (config: VmmConfig)
        ensures
            config.sandbox_id@ == self.sandbox_id@,
            config.log_level == self.log_level,
            config.http_path == self.ch_http_api,
    {
        VmmConfig {
            sandbox_id: self.sandbox_id.clone(),
            log_level: self.log_level,
            http_path: crate::identity::clone_opt_text(&self.ch_http_api),
        }
    }
}

/// Where the output of a console goes.
#[derive(Clone, Copy, Debug, PartialEq, Eq, Structural)]
pub enum ConsoleOutputMode {
    Off,
    Pty,
    Tty,
    File,
    Null,
}

#[derive(Debug, PartialEq, Eq)]
pub struct ConsoleConfig {
    pub file: Option<String>,
    pub mode: ConsoleOutputMode,
}

#[derive(Debug, PartialEq, Eq)]
pub struct PmemConfig {
    pub file: String,
    pub size: Option<u64>,
    pub discard_writes: bool,
    pub id: Option<String>,
}

#[derive(Clone, Copy, Debug, PartialEq, Eq, Structural)]
pub struct TokenBucketConfig {
    pub size: u64,
    pub one_time_burst: Option<u64>,
    pub refill_time: u64,
}

#[derive(Clone, Copy, Debug, PartialEq, Eq, Structural)]
pub struct RateLimiterConfig {
    pub bandwidth: Option<TokenBucketConfig>,
    pub ops: Option<TokenBucketConfig>,
}

#[derive(Debug, PartialEq, Eq)]
pub struct DiskConfig {
    pub id: Option<String>,
    pub path: Option<String>,
    pub rate_limiter_config: Option<RateLimiterConfig>,
}

#[derive(Debug, PartialEq, Eq)]
pub struct NetConfig {
    pub id: Option<String>,
    pub tap: Option<String>,
    pub mac: String,
    pub mtu: Option<u16>,
    pub rate_limiter_config: Option<RateLimiterConfig>,
    /// The descriptors, or their places among the descriptors that are handed
    /// over.
    pub fds: Option<Vec<i32>>,
}

#[derive(Debug, PartialEq, Eq)]
pub struct FsConfig {
    pub id: Option<String>,
    pub tag: String,
    /// The settings of the back end, as they were given.
    pub backendfs_config: Option<String>,
    pub rate_limiter_config: Option<RateLimiterConfig>,
    pub num_queues: usize,
    pub queue_size: u16,
}

#[derive(Debug, PartialEq, Eq)]
pub struct VsockConfig {
    pub cid: u64,
    pub socket: String,
    pub id: Option<String>,
}

#[derive(Debug, PartialEq, Eq)]
pub struct IvshmemConfig {
    pub path: String,
    pub size: usize,
}

#[derive(Debug, PartialEq, Eq)]
pub struct RngConfig {
    pub src: String,
    pub iommu: bool,
}

/// The architecture of the guest.
#[derive(Clone, Copy, Debug, PartialEq, Eq, Structural)]
pub enum Arch {
    X86_64,
    Aarch64,
    Other,
}

/// The names of devices.
pub struct DeviceNames<'a> {
    pub os_image_id: &'a str,
    pub agent_id: &'a str,
    pub net_prefix: &'a str,
    pub disk_prefix: &'a str,
}

/// The limits of an interface.
#[derive(Clone, Copy, Debug, PartialEq, Eq, Structural)]
pub struct Qos {
    pub bw_size: u64,
    pub bw_one_time_burst: u64,
    pub bw_refill_time: u64,
    pub ops_size: u64,
    pub ops_one_time_burst: u64,
    pub ops_refill_time: u64,
}

/// An interface of a sandbox.
#[derive(Debug, PartialEq, Eq)]
pub struct Interface {
    pub name: Option<String>,
    pub mac: String,
    /// Whether the hypervisor accepts the address.
    pub mac_valid: bool,
    pub mtu: i64,
    pub qos: Option<Qos>,
}

/// A disk of a sandbox.
#[derive(Debug, PartialEq, Eq)]
pub struct Disk {
    pub path: String,
    pub rate_limiter_config: Option<RateLimiterConfig>,
}

/// A persistent memory of a sandbox.
#[derive(Debug, PartialEq, Eq)]
pub struct Pmem {
    pub file: String,
    pub size: Option<u64>,
    pub discard_writes: bool,
    pub id: String,
}

/// A file system of a sandbox.
#[derive(Debug, PartialEq, Eq)]
pub struct Fs {
    pub backendfs_config: Option<String>,
    pub rate_limiter_config: Option<RateLimiterConfig>,
}

/// The settings of a virtual machine.
#[derive(Debug, PartialEq, Eq)]
pub struct VmConfig {
    pub ivshmem: Option<IvshmemConfig>,
    pub vcpus: u32,
    /// In mebibytes.
    pub memory_size: u64,
    pub dirty_log: bool,
    pub cmdlines: Vec<String>,
    pub kernel: String,
    pub disks: Option<Vec<DiskConfig>>,
    pub nets: Option<Vec<NetConfig>>,
    pub fss: Option<Vec<FsConfig>>,
    pub pmems: Option<Vec<PmemConfig>>,
    pub serial: ConsoleConfig,
    pub console: ConsoleConfig,
    pub vsock: Option<VsockConfig>,
    pub sys_ctrl: bool,
    pub rng: RngConfig,
}

/// The topology of a machine's processors.
#[derive(Clone, Copy, Debug, PartialEq, Eq, Structural)]
pub struct CpuTopology {
    pub threads_per_core: u8,
    pub cores_per_die: u8,
    pub dies_per_package: u8,
    pub packages: u8,
}

/// What the hypervisor is told of a virtual machine.
#[derive(Debug, PartialEq, Eq)]
pub struct MachineConfig<'a> {
    pub max_vcpus: u8,
    pub boot_vcpus: u8,
    pub topology: CpuTopology,
    /// In bytes.
    pub memory_size: u64,
    pub dirty_log: bool,
    pub cmdline: String,
    pub kernel: &'a String,
    pub disks: &'a Option<Vec<DiskConfig>>,
    pub net: &'a Option<Vec<NetConfig>>,
    pub fs: &'a Option<Vec<FsConfig>>,
    pub pmem: &'a Option<Vec<PmemConfig>>,
    pub serial: &'a ConsoleConfig,
    pub console: &'a ConsoleConfig,
    pub sys_ctrl: bool,
    pub vsock: &'a Option<VsockConfig>,
    pub ivshmem: &'a Option<IvshmemConfig>,
}

/// The kernel parameters that every machine has.
pub open spec fn default_cmdlines(arch: Arch) -> Seq<Seq<char>> {
    let first = seq![
        "root=/dev/pmem0"@,
        "rootflags=dax,errors=remount-ro ro"@,
        "rootfstype=ext4"@,
        "panic=1"@,
    ];
    let timers = if arch == Arch::X86_64 {
        seq!["no_timer_check"@, "noreplace-smp"@]
    } else {
        Seq::empty()
    };
    let console = if arch == Arch::Aarch64 {
        "console=ttyAMA0,115200"@
    } else {
        "console=hvc0"@
    };
    let last = seq![
        "net.ifnames=0"@,
        "audit=0"@,
        "LANG=C"@,
        "raid=noautodetect"@,
        "earlyprintk=ttyS0"@,
        "agent.debug_console"@,
        "agent.debug_console_vport=1026"@,
        "mitigations=off"@,
    ];
    first + timers + seq!["printk.devkmsg=on"@, console] + last
}

fn default_parameters(arch: Arch) -> (params: Vec<String>)
    ensures
        views(params@) == default_cmdlines(arch),
{
    let mut params: Vec<String> = Vec::new();
    params.push("root=/dev/pmem0".to_owned());
    params.push("rootflags=dax,errors=remount-ro ro".to_owned());
    params.push("rootfstype=ext4".to_owned());
    params.push("panic=1".to_owned());
    if arch == Arch::X86_64 {
        params.push("no_timer_check".to_owned());
        params.push("noreplace-smp".to_owned());
    }
    params.push("printk.devkmsg=on".to_owned());
    if arch == Arch::Aarch64 {
        params.push("console=ttyAMA0,115200".to_owned());
    } else {
        params.push("console=hvc0".to_owned());
    }
    params.push("net.ifnames=0".to_owned());
    params.push("audit=0".to_owned());
    params.push("LANG=C".to_owned());
    params.push("raid=noautodetect".to_owned());
    params.push("earlyprintk=ttyS0".to_owned());
    params.push("agent.debug_console".to_owned());
    params.push("agent.debug_console_vport=1026".to_owned());
    params.push("mitigations=off".to_owned());
    assert(views(params@) =~= default_cmdlines(arch));
    params
}

/// Several texts with single spaces between them.
pub open spec fn spaced_texts(parts: Seq<Seq<char>>) -> Seq<char>
    decreases parts.len(),
{
    if parts.len() == 0 {
        Seq::empty()
    } else if parts.len() == 1 {
        parts[0]
    } else {
        spaced_texts(parts.drop_last()) + " "@ + parts.last()
    }
}

fn join_texts(parts: &Vec<String>) -> (text: String)
    ensures
        text@ == spaced_texts(views(parts@)),
{
    let ghost all = views(parts@);
    if parts.len() == 0 {
        let empty = "".to_owned();
        proof {
            reveal_strlit("");
            assert(empty@ =~= Seq::empty());
        }
        return empty;
    }
    let mut text = parts[0].clone();
    let mut i: usize = 1;
    assert(all.take(1)[0] == parts@[0]@);
    while i < parts.len()
        invariant
            all == views(parts@),
            1 <= i <= parts.len(),
            text@ == spaced_texts(all.take(i as int)),
        decreases parts.len() - i,
    {
        proof {
            assert(all.take(i + 1).drop_last() =~= all.take(i as int));
            assert(all.take(i + 1).last() == parts@[i as int]@);
        }
        text = text.concat(" ").concat(parts[i].as_str());
        i = i + 1;
    }
    assert(all.take(i as int) =~= all);
    text
}

/// The name of a kernel parameter.
pub open spec fn key_of(param: Seq<char>) -> Seq<char> {
    match split_once_spec(param, "="@) {
        None => param,
        Some((key, _)) => key,
    }
}

fn parameter_key(param: &str) -> (key: String)
    ensures
        key@ == key_of(param@),
{
    match split_once(param, "=") {
        None => param.to_owned(),
        Some((key, _)) => key,
    }
}

/// Whether one of the parameters has this name.
pub open spec fn has_key(params: Seq<Seq<char>>, key: Seq<char>) -> bool {
    exists|i: int| 0 <= i < params.len() && key_of(#[trigger] params[i]) == key
}

/// Why a further kernel parameter must not be added, if it must not. White
/// space around it does not count, and an empty one is none.
pub open spec fn conflict_of(params: Seq<Seq<char>>, extra: Seq<char>) -> Option<Seq<char>> {
    let param = trimmed(extra);
    let key = key_of(param);
    if param.len() == 0 {
        None
    } else if params.contains(param) {
        Some("kernel parameter '"@ + param + "' already exists"@)
    } else if !has_key(params, key) {
        None
    } else if key == param {
        Some("kernel parameter '"@ + param + "' already exists"@)
    } else {
        Some(
            "kernel parameter '"@ + param + "' conflicts with existing parameter (key '"@ + key
                + "' already exists)"@,
        )
    }
}

/// The conflicts of several further kernel parameters, in their order.
pub open spec fn conflicts_of(params: Seq<Seq<char>>, extra: Seq<Seq<char>>) -> Seq<Seq<char>>
    decreases extra.len(),
{
    if extra.len() == 0 {
        Seq::empty()
    } else {
        let rest = conflicts_of(params, extra.drop_last());
        match conflict_of(params, extra.last()) {
            None => rest,
            Some(message) => rest.push(message),
        }
    }
}

/// The token buckets of an interface.
pub open spec fn limits_of(qos: Option<Qos>) -> Option<RateLimiterConfig> {
    match qos {
        None => None,
        Some(q) => Some(
            RateLimiterConfig {
                bandwidth: Some(
                    TokenBucketConfig {
                        size: q.bw_size,
                        one_time_burst: Some(q.bw_one_time_burst),
                        refill_time: q.bw_refill_time,
                    },
                ),
                ops: Some(
                    TokenBucketConfig {
                        size: q.ops_size,
                        one_time_burst: Some(q.ops_one_time_burst),
                        refill_time: q.ops_refill_time,
                    },
                ),
            },
        ),
    }
}

/// Why an interface cannot be added, if it cannot.
pub open spec fn interface_fault(interface: Interface) -> Option<Seq<char>> {
    if !interface.mac_valid {
        Some("New mac addr failed:"@ + interface.mac@)
    } else if interface.mtu > 0 && interface.mtu > u16::MAX {
        Some("Invalid network MTU:"@ + signed_decimal(interface.mtu as int))
    } else {
        None
    }
}

/// Whether a device is the one of an interface, as the `index`th.
pub open spec fn is_device_of(
    device: NetConfig,
    interface: Interface,
    prefix: Seq<char>,
    index: nat,
) -> bool {
    &&& device.id matches Some(id) && id@ == prefix + "-"@ + decimal(index)
    &&& device.tap == interface.name
    &&& device.mac@ == interface.mac@
    &&& device.mtu == (if interface.mtu > 0 {
        Some(interface.mtu as u16)
    } else {
        None
    })
    &&& device.rate_limiter_config == limits_of(interface.qos)
    &&& device.fds is None
}

fn device_of(interface: &Interface, prefix: &str, index: usize) -> (r: Result<NetConfig, String>)
    ensures
        match interface_fault(*interface) {
            Some(message) => fails_with(r, message),
            None => r matches Ok(device) && is_device_of(
                device,
                *interface,
                prefix@,
                index as nat,
            ),
        },
{
    if !interface.mac_valid {
        return Err("New mac addr failed:".to_owned().concat(interface.mac.as_str()));
    }
    let mtu: Option<u16> = if interface.mtu > 0 {
        if interface.mtu > 0xffff {
            return Err(
                "Invalid network MTU:".to_owned().concat(
                    signed_decimal_text(interface.mtu).as_str(),
                ),
            );
        }
        Some(interface.mtu as u16)
    } else {
        None
    };
    let rate_limiter_config = match interface.qos {
        None => None,
        Some(q) => Some(
            RateLimiterConfig {
                bandwidth: Some(
                    TokenBucketConfig {
                        size: q.bw_size,
                        one_time_burst: Some(q.bw_one_time_burst),
                        refill_time: q.bw_refill_time,
                    },
                ),
                ops: Some(
                    TokenBucketConfig {
                        size: q.ops_size,
                        one_time_burst: Some(q.ops_one_time_burst),
                        refill_time: q.ops_refill_time,
                    },
                ),
            },
        ),
    };
    Ok(
        NetConfig {
            id: Some(
                prefix.to_owned().concat("-").concat(decimal_text(index as u128).as_str()),
            ),
            tap: crate::identity::clone_opt_text(&interface.name),
            mac: interface.mac.clone(),
            mtu,
            rate_limiter_config,
            fds: None,
        },
    )
}

/// How many interfaces can be added before one that cannot.
pub open spec fn addable(interfaces: Seq<Interface>) -> nat
    decreases interfaces.len(),
{
    if interfaces.len() == 0 {
        0
    } else {
        let before = addable(interfaces.drop_last());
        if before == interfaces.len() - 1 && interface_fault(interfaces.last()) is None {
            interfaces.len()
        } else {
            before
        }
    }
}

proof fn lemma_addable(interfaces: Seq<Interface>, n: int)
    requires
        0 <= n <= interfaces.len(),
        forall|k: int| 0 <= k < n ==> interface_fault(#[trigger] interfaces[k]) is None,
        n < interfaces.len() ==> interface_fault(interfaces[n]) is Some,
    ensures
        addable(interfaces) == n,
    decreases interfaces.len(),
{
    if interfaces.len() > 0 {
        if n == interfaces.len() {
            lemma_addable(interfaces.drop_last(), n - 1);
        } else {
            lemma_addable(interfaces.drop_last(), n);
        }
    }
}

/// Whether devices were added behind others, one for each of the first `n`
/// interfaces.
pub open spec fn devices_added(
    before: Seq<NetConfig>,
    after: Seq<NetConfig>,
    interfaces: Seq<Interface>,
    prefix: Seq<char>,
    n: nat,
) -> bool {
    &&& after.len() == before.len() + n
    &&& after.take(before.len() as int) == before
    &&& forall|k: int|
        0 <= k < n ==> is_device_of(
            #[trigger] after[before.len() + k],
            interfaces[k],
            prefix,
            (before.len() + k) as nat,
        )
}

/// Whether a device is the one of a disk, as the `index`th.
pub open spec fn is_drive_of(device: DiskConfig, disk: Disk, prefix: Seq<char>, index: nat) -> bool {
    &&& device.id matches Some(id) && id@ == prefix + "-"@ + decimal(index)
    &&& device.path matches Some(path) && path@ == disk.path@
    &&& device.rate_limiter_config == disk.rate_limiter_config
}

/// Whether a device is the one of a persistent memory.
pub open spec fn is_memory_of(device: PmemConfig, pmem: Pmem) -> bool {
    &&& device.file@ == pmem.file@
    &&& device.size == pmem.size
    &&& device.discard_writes == pmem.discard_writes
    &&& device.id matches Some(id) && id@ == pmem.id@
}

/// Whether a device holds a read-only image.
pub open spec fn is_image(device: PmemConfig, path: Seq<char>, id: Seq<char>) -> bool {
    &&& device.file@ == path
    &&& device.size is None
    &&& device.discard_writes
    &&& device.id matches Some(name) && name@ == id
}

impl VmConfig {
    /// The persistent memories that every machine has: the guest's image and
    /// its agent, in this order.
    pub fn builtin_pmems(os_image_path: &str, agent_path: &str, names: &DeviceNames) -> (pmems: Vec<
        PmemConfig,
    >)
        ensures
            pmems@.len() == 2,
            is_image(pmems@[0], os_image_path@, names.os_image_id@),
            is_image(pmems@[1], agent_path@, names.agent_id@),
    {
        let mut pmems: Vec<PmemConfig> = Vec::new();
        pmems.push(
            PmemConfig {
                file: os_image_path.to_owned(),
                size: None,
                discard_writes: true,
                id: Some(names.os_image_id.to_owned()),
            },
        );
        pmems.push(
            PmemConfig {
                file: agent_path.to_owned(),
                size: None,
                discard_writes: true,
                id: Some(names.agent_id.to_owned()),
            },
        );
        pmems
    }

    /// A machine with these images and nothing else yet.
    pub fn new(os_image_path: &str, agent_path: &str, names: &DeviceNames, arch: Arch) -> (config:
        Self)
        ensures
            config.ivshmem is None,
            config.vcpus == 0,
            config.memory_size == 0,
            !config.dirty_log,
            views(config.cmdlines@) == default_cmdlines(arch),
            config.kernel@.len() == 0,
            config.disks matches Some(disks) && disks@.len() == 0,
            config.nets matches Some(nets) && nets@.len() == 0,
            config.fss matches Some(fss) && fss@.len() == 0,
            config.pmems matches Some(pmems) && pmems@.len() == 2 && is_image(
                pmems@[0],
                os_image_path@,
                names.os_image_id@,
            ) && is_image(pmems@[1], agent_path@, names.agent_id@),
            config.serial == (ConsoleConfig { file: None, mode: ConsoleOutputMode::Tty }),
            config.console == (ConsoleConfig { file: None, mode: ConsoleOutputMode::Tty }),
            config.vsock is None,
            !config.sys_ctrl,
            config.rng.src@ == "/dev/urandom"@,
            !config.rng.iommu,
    {
        let kernel = "".to_owned();
        proof {
            reveal_strlit("");
        }
        let disks: Vec<DiskConfig> = Vec::new();
        let nets: Vec<NetConfig> = Vec::new();
        let fss: Vec<FsConfig> = Vec::new();
        VmConfig {
            ivshmem: None,
            vcpus: 0,
            memory_size: 0,
            dirty_log: false,
            cmdlines: default_parameters(arch),
            kernel,
            disks: Some(disks),
            nets: Some(nets),
            fss: Some(fss),
            pmems: Some(VmConfig::builtin_pmems(os_image_path, agent_path, names)),
            serial: ConsoleConfig { file: None, mode: ConsoleOutputMode::Tty },
            console: ConsoleConfig { file: None, mode: ConsoleOutputMode::Tty },
            vsock: None,
            sys_ctrl: false,
            rng: RngConfig { src: "/dev/urandom".to_owned(), iommu: false },
        }
    }

    /// A machine with the installed images.
    pub fn default(names: &DeviceNames, arch: Arch) -> (config: Self)
        ensures
            views(config.cmdlines@) == default_cmdlines(arch),
            config.pmems matches Some(pmems) && pmems@.len() == 2 && is_image(
                pmems@[0],
                IMAGE_PATH@,
                names.os_image_id@,
            ) && is_image(pmems@[1], DEFAULT_AGENT_PATH@, names.agent_id@),
            config.ivshmem is None,
            config.vcpus == 0,
            config.memory_size == 0,
            !config.dirty_log,
            config.kernel@.len() == 0,
            config.disks matches Some(disks) && disks@.len() == 0,
            config.nets matches Some(nets) && nets@.len() == 0,
            config.fss matches Some(fss) && fss@.len() == 0,
            config.serial == (ConsoleConfig { file: None, mode: ConsoleOutputMode::Tty }),
            config.console == (ConsoleConfig { file: None, mode: ConsoleOutputMode::Tty }),
            config.vsock is None,
            !config.sys_ctrl,
            config.rng.src@ == "/dev/urandom"@,
            !config.rng.iommu,
    {
        VmConfig::new(IMAGE_PATH, DEFAULT_AGENT_PATH, names, arch)
    }

    /// What the hypervisor is told of the machine. Processors are counted by
    /// eight bits.
    pub fn to_vm_config(&self) -> (machine: MachineConfig<'_>)
        requires
            self.memory_size * MI_B <= u64::MAX,
        ensures
            machine.max_vcpus == self.vcpus % 256,
            machine.boot_vcpus == self.vcpus % 256,
            machine.topology == (CpuTopology {
                threads_per_core: 1,
                cores_per_die: (self.vcpus % 256) as u8,
                dies_per_package: 1,
                packages: 1,
            }),
            machine.memory_size == self.memory_size * MI_B,
            machine.dirty_log == self.dirty_log,
            machine.cmdline@ == spaced_texts(views(self.cmdlines@)),
            machine.kernel == self.kernel,
            machine.disks == self.disks,
            machine.net == self.nets,
            machine.fs == self.fss,
            machine.pmem == self.pmems,
            machine.serial == self.serial,
            machine.console == self.console,
            machine.sys_ctrl,
            machine.vsock == self.vsock,
            machine.ivshmem == self.ivshmem,
    {
        let vcpus: u8 = (self.vcpus % 256) as u8;
        MachineConfig {
            max_vcpus: vcpus,
            boot_vcpus: vcpus,
            topology: CpuTopology {
                threads_per_core: 1,
                cores_per_die: vcpus,
                dies_per_package: 1,
                packages: 1,
            },
            memory_size: self.memory_size * MI_B,
            dirty_log: self.dirty_log,
            cmdline: join_texts(&self.cmdlines),
            kernel: &self.kernel,
            disks: &self.disks,
            net: &self.nets,
            fs: &self.fss,
            pmem: &self.pmems,
            serial: &self.serial,
            console: &self.console,
            sys_ctrl: true,
            vsock: &self.vsock,
            ivshmem: &self.ivshmem,
        }
    }

    /// Gives the machine a shared memory in this file, which the caller has
    /// created with this size.
    pub fn enable_ivshmem(&mut self, path: String, size: usize)
        ensures
            *final(self) == (VmConfig {
                ivshmem: Some(IvshmemConfig { path, size }),
                ..*old(self)
            }),
    {
        self.ivshmem = Some(IvshmemConfig { path, size });
    }

    /// Adds a kernel parameter.
    pub fn add_cmdline(&mut self, cmd: String) -> (config: &mut Self)
        ensures
            config.cmdlines@ == old(self).cmdlines@.push(cmd),
            *config == (VmConfig { cmdlines: config.cmdlines, ..*old(self) }),
            *final(self) == *final(config),
    {
        self.cmdlines.push(cmd);
        self
    }

    /// The conflicts of further kernel parameters with those that the machine
    /// has.
    pub fn check_cmdline_conflicts(&self, extra_params: &Vec<String>) -> (conflicts: Vec<String>)
        ensures
            views(conflicts@) == conflicts_of(views(self.cmdlines@), views(extra_params@)),
    {
        let ghost params = views(self.cmdlines@);
        let ghost extra = views(extra_params@);
        let mut conflicts: Vec<String> = Vec::new();
        let mut i: usize = 0;
        assert(views(conflicts@) =~= conflicts_of(params, extra.take(0)));
        while i < extra_params.len()
            invariant
                i <= extra_params.len(),
                params == views(self.cmdlines@),
                extra == views(extra_params@),
                views(conflicts@) == conflicts_of(params, extra.take(i as int)),
            decreases extra_params.len() - i,
        {
            proof {
                assert(extra.take(i + 1).drop_last() =~= extra.take(i as int));
                assert(extra.take(i + 1).last() == extra_params@[i as int]@);
            }
            if let Some(message) = self.find_conflict(extra_params[i].as_str()) {
                let ghost before = conflicts@;
                conflicts.push(message);
                assert(views(conflicts@) =~= views(before).push(message@));
            }
            i = i + 1;
        }
        assert(extra.take(i as int) =~= extra);
        conflicts
    }

    fn find_conflict(&self, extra: &str) -> (conflict: Option<String>)
        ensures
            crate::text::opt_view(conflict) == conflict_of(views(self.cmdlines@), extra@),
    {
        let ghost params = views(self.cmdlines@);
        let param = trim(extra);
        if param.as_str().is_empty() {
            return None;
        }
        let key = parameter_key(param.as_str());
        let mut same = false;
        let mut known = false;
        let mut i: usize = 0;
        while i < self.cmdlines.len()
            invariant
                i <= self.cmdlines.len(),
                params == views(self.cmdlines@),
                same == exists|k: int| 0 <= k < i && #[trigger] params[k] == param@,
                known == exists|k: int| 0 <= k < i && key_of(#[trigger] params[k]) == key@,
            decreases self.cmdlines.len() - i,
        {
            assert(params[i as int] == self.cmdlines@[i as int]@);
            if text_eq(self.cmdlines[i].as_str(), param.as_str()) {
                same = true;
            }
            if text_eq(parameter_key(self.cmdlines[i].as_str()).as_str(), key.as_str()) {
                known = true;
            }
            i = i + 1;
        }
        assert(same == params.contains(param@));
        assert(known == has_key(params, key@));
        if same || (known && text_eq(key.as_str(), param.as_str())) {
            return Some(
                "kernel parameter '".to_owned().concat(param.as_str()).concat("' already exists"),
            );
        }
        if known {
            return Some(
                "kernel parameter '".to_owned().concat(param.as_str()).concat(
                    "' conflicts with existing parameter (key '",
                ).concat(key.as_str()).concat("' already exists)"),
            );
        }
        None
    }

    /// Sets the number of processors.
    pub fn set_vcpus(&mut self, vcpu: u32) -> (config: &mut Self)
        ensures
            *config == (VmConfig { vcpus: vcpu, ..*old(self) }),
            *final(self) == *final(config),
    {
        self.vcpus = vcpu;
        self
    }

    /// Sets the memory, in mebibytes.
    pub fn set_memory(&mut self, size: u64, dirty_log: bool) -> (config: &mut Self)
        ensures
            *config == (VmConfig { memory_size: size, dirty_log, ..*old(self) }),
            *final(self) == *final(config),
    {
        self.memory_size = size;
        self.dirty_log = dirty_log;
        self
    }

    /// Sets the kernel.
    pub fn set_kernel(&mut self, kernel: String) -> (config: &mut Self)
        ensures
            *config == (VmConfig { kernel, ..*old(self) }),
            *final(self) == *final(config),
    {
        self.kernel = kernel;
        self
    }

    /// Writes what the guest prints while it boots to files.
    pub fn enable_guest_boot_trace(&mut self, serial_path: String, console_path: String) -> (config:
        &mut Self)
        ensures
            *config == (VmConfig {
                serial: ConsoleConfig { file: Some(serial_path), mode: ConsoleOutputMode::File },
                console: ConsoleConfig { file: Some(console_path), mode: ConsoleOutputMode::File },
                ..*old(self)
            }),
            *final(self) == *final(config),
    {
        self.serial = ConsoleConfig { file: Some(serial_path), mode: ConsoleOutputMode::File };
        self.console = ConsoleConfig { file: Some(console_path), mode: ConsoleOutputMode::File };
        self
    }

    /// Adds a device for each interface. Where one cannot be added, those
    /// before it were.
    pub fn add_nets(&mut self, interfaces: &Vec<Interface>, names: &DeviceNames) -> (r: Result<
        (),
        String,
    >)
        requires
            old(self).nets is Some,
            old(self).nets->0@.len() + interfaces@.len() <= usize::MAX,
        ensures
            final(self).nets is Some,
            *final(self) == (VmConfig { nets: final(self).nets, ..*old(self) }),
            devices_added(
                old(self).nets->0@,
                final(self).nets->0@,
                interfaces@,
                names.net_prefix@,
                addable(interfaces@),
            ),
            forall|k: int|
                0 <= k < addable(interfaces@) ==> {
                    let device = #[trigger] final(self).nets->0@[old(self).nets->0@.len() + k];
                    let limits = device.rate_limiter_config;
                    &&& device.tap == interfaces@[k].name
                    &&& device.mac@ == interfaces@[k].mac@
                    &&& interfaces@[k].qos is None ==> limits is None
                    &&& interfaces@[k].qos matches Some(qos) ==> {
                        &&& limits is Some && limits->0.bandwidth is Some && limits->0.ops is Some
                        &&& limits->0.bandwidth->0.size == qos.bw_size
                        &&& limits->0.bandwidth->0.one_time_burst == Some(qos.bw_one_time_burst)
                        &&& limits->0.bandwidth->0.refill_time == qos.bw_refill_time
                        &&& limits->0.ops->0.size == qos.ops_size
                        &&& limits->0.ops->0.one_time_burst == Some(qos.ops_one_time_burst)
                        &&& limits->0.ops->0.refill_time == qos.ops_refill_time
                    }
                },
            addable(interfaces@) == interfaces@.len() ==> r is Ok,
            addable(interfaces@) < interfaces@.len() ==> fails_with(
                r,
                interface_fault(interfaces@[addable(interfaces@) as int])->0,
            ),
    {
        let ghost before = self.nets->0@;
        let mut nets: Vec<NetConfig> = match self.nets.take() {
            None => Vec::new(),
            Some(nets) => nets,
        };
        let ghost rest = *self;
        let mut i: usize = 0;
        assert(nets@.take(before.len() as int) =~= before);
        while i < interfaces.len()
            invariant
                i <= interfaces.len(),
                rest.nets is None,
                *self == rest,
                rest == (VmConfig { nets: None, ..*old(self) }),
                before == old(self).nets->0@,
                before.len() + interfaces@.len() <= usize::MAX,
                devices_added(before, nets@, interfaces@, names.net_prefix@, i as nat),
                forall|k: int| 0 <= k < i ==> interface_fault(#[trigger] interfaces@[k]) is None,
            decreases interfaces.len() - i,
        {
            match device_of(&interfaces[i], names.net_prefix, nets.len()) {
                Err(message) => {
                    proof {
                        lemma_addable(interfaces@, i as int);
                    }
                    self.nets = Some(nets);
                    return Err(message);
                },
                Ok(device) => {
                    let ghost earlier = nets@;
                    nets.push(device);
                    proof {
                        assert(nets@.take(before.len() as int) =~= earlier.take(
                            before.len() as int,
                        ));
                        assert forall|k: int| 0 <= k < i + 1 implies is_device_of(
                            #[trigger] nets@[before.len() + k],
                            interfaces@[k],
                            names.net_prefix@,
                            (before.len() + k) as nat,
                        ) by {
                            if k < i {
                                assert(nets@[before.len() + k] == earlier[before.len() + k]);
                            }
                        }
                    }
                },
            }
            i = i + 1;
        }
        proof {
            lemma_addable(interfaces@, interfaces@.len() as int);
        }
        self.nets = Some(nets);
        Ok(())
    }

    /// Adds a device for each disk.
    pub fn add_disks(&mut self, disks: &Vec<Disk>, names: &DeviceNames)
        requires
            old(self).disks is Some,
            old(self).disks->0@.len() + disks@.len() <= usize::MAX,
        ensures
            final(self).disks is Some,
            *final(self) == (VmConfig { disks: final(self).disks, ..*old(self) }),
            final(self).disks->0@.len() == old(self).disks->0@.len() + disks@.len(),
            final(self).disks->0@.take(old(self).disks->0@.len() as int) == old(self).disks->0@,
            forall|k: int|
                0 <= k < disks@.len() ==> is_drive_of(
                    #[trigger] final(self).disks->0@[old(self).disks->0@.len() + k],
                    disks@[k],
                    names.disk_prefix@,
                    (old(self).disks->0@.len() + k) as nat,
                ),
    {
        let ghost before = self.disks->0@;
        let mut devices: Vec<DiskConfig> = match self.disks.take() {
            None => Vec::new(),
            Some(devices) => devices,
        };
        let mut i: usize = 0;
        assert(devices@.take(before.len() as int) =~= before);
        while i < disks.len()
            invariant
                i <= disks.len(),
                *self == (VmConfig { disks: None, ..*old(self) }),
                before == old(self).disks->0@,
                before.len() + disks@.len() <= usize::MAX,
                devices@.len() == before.len() + i,
                devices@.take(before.len() as int) == before,
                forall|k: int|
                    0 <= k < i ==> is_drive_of(
                        #[trigger] devices@[before.len() + k],
                        disks@[k],
                        names.disk_prefix@,
                        (before.len() + k) as nat,
                    ),
            decreases disks.len() - i,
        {
            let ghost earlier = devices@;
            let index: usize = devices.len();
            devices.push(
                DiskConfig {
                    id: Some(
                        names.disk_prefix.to_owned().concat("-").concat(
                            decimal_text(index as u128).as_str(),
                        ),
                    ),
                    path: Some(disks[i].path.clone()),
                    rate_limiter_config: disks[i].rate_limiter_config,
                },
            );
            proof {
                assert(devices@.take(before.len() as int) =~= earlier.take(before.len() as int));
                assert forall|k: int| 0 <= k < i + 1 implies is_drive_of(
                    #[trigger] devices@[before.len() + k],
                    disks@[k],
                    names.disk_prefix@,
                    (before.len() + k) as nat,
                ) by {
                    if k < i {
                        assert(devices@[before.len() + k] == earlier[before.len() + k]);
                    }
                }
            }
            i = i + 1;
        }
        self.disks = Some(devices);
    }

    /// Adds a persistent memory.
    pub fn add_pmem(&mut self, pmem: &Pmem)
        requires
            old(self).pmems is Some,
        ensures
            final(self).pmems is Some,
            *final(self) == (VmConfig { pmems: final(self).pmems, ..*old(self) }),
            final(self).pmems->0@.len() == old(self).pmems->0@.len() + 1,
            final(self).pmems->0@.drop_last() == old(self).pmems->0@,
            is_memory_of(final(self).pmems->0@.last(), *pmem),
    {
        let ghost before = self.pmems->0@;
        let mut devices: Vec<PmemConfig> = match self.pmems.take() {
            None => Vec::new(),
            Some(devices) => devices,
        };
        devices.push(
            PmemConfig {
                file: pmem.file.clone(),
                size: pmem.size,
                discard_writes: pmem.discard_writes,
                id: Some(pmem.id.clone()),
            },
        );
        assert(devices@.drop_last() =~= before);
        self.pmems = Some(devices);
    }

    /// Adds several persistent memories, in their order.
    pub fn add_pmems(&mut self, pmems: &Vec<Pmem>)
        requires
            old(self).pmems is Some,
        ensures
            final(self).pmems is Some,
            *final(self) == (VmConfig { pmems: final(self).pmems, ..*old(self) }),
            final(self).pmems->0@.len() == old(self).pmems->0@.len() + pmems@.len(),
            final(self).pmems->0@.take(old(self).pmems->0@.len() as int) == old(self).pmems->0@,
            forall|k: int|
                0 <= k < pmems@.len() ==> is_memory_of(
                    #[trigger] final(self).pmems->0@[old(self).pmems->0@.len() + k],
                    pmems@[k],
                ),
    {
        let ghost before = self.pmems->0@;
        let mut i: usize = 0;
        assert(self.pmems->0@.take(before.len() as int) =~= before);
        while i < pmems.len()
            invariant
                i <= pmems.len(),
                self.pmems is Some,
                *self == (VmConfig { pmems: self.pmems, ..*old(self) }),
                before == old(self).pmems->0@,
                self.pmems->0@.len() == before.len() + i,
                self.pmems->0@.take(before.len() as int) == before,
                forall|k: int|
                    0 <= k < i ==> is_memory_of(
                        #[trigger] self.pmems->0@[before.len() + k],
                        pmems@[k],
                    ),
            decreases pmems.len() - i,
        {
            let ghost earlier = self.pmems->0@;
            self.add_pmem(&pmems[i]);
            proof {
                let now = self.pmems->0@;
                assert(now.take(before.len() as int) =~= earlier.take(before.len() as int)) by {
                    assert forall|k: int| 0 <= k < before.len() implies now[k] == earlier[k] by {
                        assert(now.drop_last()[k] == now[k]);
                    }
                }
                assert forall|k: int| 0 <= k < i + 1 implies is_memory_of(
                    #[trigger] now[before.len() + k],
                    pmems@[k],
                ) by {
                    if k < i {
                        assert(now.drop_last()[before.len() + k] == earlier[before.len() + k]);
                    }
                }
            }
            i = i + 1;
        }
    }

    /// Adds the shared file system.
    pub fn add_fs(&mut self, fs: &Fs)
        requires
            old(self).fss is Some,
        ensures
            final(self).fss is Some,
            *final(self) == (VmConfig { fss: final(self).fss, ..*old(self) }),
            final(self).fss->0@.len() == old(self).fss->0@.len() + 1,
            final(self).fss->0@.drop_last() == old(self).fss->0@,
            final(self).fss->0@.last().id matches Some(id) && id@ == VIRTIO_FS_ID@,
            final(self).fss->0@.last().tag@ == VIRTIO_FS_TAG@,
            final(self).fss->0@.last().backendfs_config == fs.backendfs_config,
            final(self).fss->0@.last().rate_limiter_config == fs.rate_limiter_config,
            final(self).fss->0@.last().num_queues == 1,
            final(self).fss->0@.last().queue_size == 1024,
    {
        let ghost before = self.fss->0@;
        let mut devices: Vec<FsConfig> = match self.fss.take() {
            None => Vec::new(),
            Some(devices) => devices,
        };
        devices.push(
            FsConfig {
                id: Some(VIRTIO_FS_ID.to_owned()),
                tag: VIRTIO_FS_TAG.to_owned(),
                backendfs_config: crate::identity::clone_opt_text(&fs.backendfs_config),
                rate_limiter_config: fs.rate_limiter_config,
                num_queues: 1,
                queue_size: 1024,
            },
        );
        assert(devices@.drop_last() =~= before);
        self.fss = Some(devices);
    }

    /// Adds file systems whose settings were made before.
    pub fn add_virtiofs(&mut self, configs: Vec<FsConfig>)
        requires
            old(self).fss is Some,
        ensures
            final(self).fss is Some,
            *final(self) == (VmConfig { fss: final(self).fss, ..*old(self) }),
            final(self).fss->0@ == old(self).fss->0@ + configs@,
    {
        let mut configs = configs;
        let mut devices: Vec<FsConfig> = match self.fss.take() {
            None => Vec::new(),
            Some(devices) => devices,
        };
        devices.append(&mut configs);
        self.fss = Some(devices);
    }

    /// Gives the machine this socket.
    pub fn add_vsock(&mut self, vsock: VsockConfig) -> (config: &mut Self)
        ensures
            *config == (VmConfig { vsock: Some(vsock), ..*old(self) }),
            *final(self) == *final(config),
    {
        self.vsock = Some(vsock);
        self
    }
}

/// A parameter that the machine has, or another one with its name, is always
/// reported as a conflict.
pub proof fn law_known_parameters_conflict(params: Seq<Seq<char>>, extra: Seq<char>, i: int)
    requires
        0 <= i < params.len(),
        trimmed(extra).len() > 0,
        key_of(params[i]) == key_of(trimmed(extra)),
    ensures
        conflict_of(params, extra) is Some,
{
}

/// A parameter whose name the machine does not have is no conflict.
pub proof fn law_new_parameters_do_not_conflict(params: Seq<Seq<char>>, extra: Seq<char>)
    requires
        !has_key(params, key_of(trimmed(extra))),
    ensures
        conflict_of(params, extra) is None,
{
    if params.contains(trimmed(extra)) {
        let i = params.index_of(trimmed(extra));
        assert(key_of(params[i]) == key_of(trimmed(extra)));
    }
}

/// The device of an interface has its name, its address and its limits: the
/// bandwidth bucket from the three settings of the bandwidth, the operations
/// bucket from the three settings of the operations, and no buckets where the
/// interface has no limits. A positive maximum of a packet is taken over.
pub proof fn law_device_has_the_limits_of_its_interface(
    device: NetConfig,
    interface: Interface,
    prefix: Seq<char>,
    index: nat,
)
    requires
        is_device_of(device, interface, prefix, index),
        interface_fault(interface) is None,
    ensures
        device.tap == interface.name,
        device.mac@ == interface.mac@,
        device.id is Some,
        device.id->0@ == prefix + "-"@ + decimal(index),
        device.fds is None,
        interface.mtu <= 0 ==> device.mtu is None,
        interface.mtu > 0 ==> device.mtu is Some && device.mtu->0 == interface.mtu,
        interface.qos is None ==> device.rate_limiter_config is None,
        interface.qos matches Some(qos) ==> device.rate_limiter_config is Some
            && device.rate_limiter_config->0.bandwidth is Some
            && device.rate_limiter_config->0.bandwidth->0.size == qos.bw_size
            && device.rate_limiter_config->0.bandwidth->0.one_time_burst == Some(
            qos.bw_one_time_burst,
        ) && device.rate_limiter_config->0.bandwidth->0.refill_time == qos.bw_refill_time
            && device.rate_limiter_config->0.ops is Some
            && device.rate_limiter_config->0.ops->0.size == qos.ops_size
            && device.rate_limiter_config->0.ops->0.one_time_burst == Some(qos.ops_one_time_burst)
            && device.rate_limiter_config->0.ops->0.refill_time == qos.ops_refill_time,
{
}

/// An interface is refused exactly where its address is not valid or a packet
/// could not be counted by sixteen bits.
pub proof fn law_interfaces_are_refused_for_address_or_size(interface: Interface)
    ensures
        interface_fault(interface) is Some <==> !interface.mac_valid || interface.mtu > 65_535,
{
}

/// Devices are added for every interface before the first that is refused, and
/// where none is refused for all of them.
pub proof fn law_good_interfaces_are_all_added(interfaces: Seq<Interface>, n: int)
    requires
        0 <= n <= interfaces.len(),
        forall|k: int|
            0 <= k < n ==> (#[trigger] interfaces[k]).mac_valid && interfaces[k].mtu <= 65_535,
        n < interfaces.len() ==> !interfaces[n].mac_valid || interfaces[n].mtu > 65_535,
    ensures
        addable(interfaces) == n,
{
    lemma_addable(interfaces, n);
}

/// Every machine boots from its read-only image on the first persistent memory,
/// and its console is the one of its architecture.
pub proof fn law_machines_boot_from_their_image(arch: Arch)
    ensures
        ({
            let params = default_cmdlines(arch);
            &&& params[0] == "root=/dev/pmem0"@
            &&& params.contains("rootfstype=ext4"@)
            &&& params.contains("panic=1"@)
            &&& arch == Arch::Aarch64 ==> params.contains("console=ttyAMA0,115200"@)
            &&& arch != Arch::Aarch64 ==> params.contains("console=hvc0"@)
            &&& arch == Arch::X86_64 ==> params.contains("no_timer_check"@) && params.contains(
                "noreplace-smp"@,
            ) && params.len() == 16
            &&& arch != Arch::X86_64 ==> params.len() == 14
            &&& params.last() == "mitigations=off"@
        }),
{
    let params = default_cmdlines(arch);
    assert(params[2] == "rootfstype=ext4"@);
    assert(params[3] == "panic=1"@);
    if arch == Arch::X86_64 {
        assert(params[4] == "no_timer_check"@);
        assert(params[5] == "noreplace-smp"@);
        assert(params[7] == "console=hvc0"@);
    } else if arch == Arch::Aarch64 {
        assert(params[5] == "console=ttyAMA0,115200"@);
    } else {
        assert(params[5] == "console=hvc0"@);
    }
}

/// Each conflict of further parameters is reported, in their order, and nothing
/// else is.
pub proof fn law_every_conflict_is_reported(
    params: Seq<Seq<char>>,
    extra: Seq<Seq<char>>,
    next: Seq<char>,
)
    ensures
        conflicts_of(params, Seq::empty()).len() == 0,
        conflicts_of(params, extra.push(next)) == (match conflict_of(params, next) {
            None => conflicts_of(params, extra),
            Some(message) => conflicts_of(params, extra).push(message),
        }),
{
    assert(extra.push(next).drop_last() =~= extra);
}

/// The kernel's command line holds every parameter in its order, with one space
/// before each but the first.
pub proof fn law_command_line_holds_every_parameter(params: Seq<Seq<char>>, next: Seq<char>)
    ensures
        spaced_texts(seq![next]) == next,
        params.len() > 0 ==> spaced_texts(params.push(next)) == spaced_texts(params) + " "@ + next,
{
    assert(params.push(next).drop_last() =~= params);
}

/// A disk's device is numbered behind its prefix, stands for the disk's file and
/// has the disk's limits.
pub proof fn law_drive_is_the_one_of_its_disk(
    device: DiskConfig,
    disk: Disk,
    prefix: Seq<char>,
    index: nat,
)
    ensures
        is_drive_of(device, disk, prefix, index) == (device.id is Some && device.id->0@ == prefix
            + "-"@ + decimal(index) && device.path is Some && device.path->0@ == disk.path@
            && device.rate_limiter_config == disk.rate_limiter_config),
{
}

/// A persistent memory's device has its file, its size, its name and its way
/// with writes; an image is one without a size whose writes are discarded.
pub proof fn law_memory_is_the_one_that_was_asked_for(
    device: PmemConfig,
    pmem: Pmem,
    path: Seq<char>,
    id: Seq<char>,
)
    ensures
        is_memory_of(device, pmem) == (device.file@ == pmem.file@ && device.size == pmem.size
            && device.discard_writes == pmem.discard_writes && device.id is Some && device.id->0@
            == pmem.id@),
        is_image(device, path, id) == (device.file@ == path && device.size is None
            && device.discard_writes && device.id is Some && device.id->0@ == id),
{
}

/// Devices are added behind those that are there, in the order of their
/// interfaces, and numbered in the same way.
pub proof fn law_devices_are_added_in_order(
    before: Seq<NetConfig>,
    after: Seq<NetConfig>,
    interfaces: Seq<Interface>,
    prefix: Seq<char>,
    n: nat,
    i: int,
)
    requires
        devices_added(before, after, interfaces, prefix, n),
    ensures
        after.len() == before.len() + n,
        0 <= i < before.len() ==> after[i] == before[i],
        0 <= i < n ==> after[before.len() + i].id is Some && after[before.len() + i].id->0@
            == prefix + "-"@ + decimal((before.len() + i) as nat),
{
    if 0 <= i < before.len() {
        assert(after.take(before.len() as int)[i] == before[i]);
    }
    if 0 <= i < n {
        assert(is_device_of(
            after[before.len() + i],
            interfaces[i],
            prefix,
            (before.len() + i) as nat,
        ));
    }
}

} // verus!
