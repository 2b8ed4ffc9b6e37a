use vstd::prelude::*;

use crate::assets::{
    asset_path_of, get_asset_path, image_file_of, image_path, DEFAULT_IMAGE, HYPERVISOR_BINARY,
    KERNEL_IMAGE,
};
use crate::control::{
    boot_requests, boot_sequence, check_response, is_success_status, ApiRequest, RequestView,
};
use crate::error::VmError;
use crate::guest::{guest_command_text, guest_network_command, check_guest_exit, CHANNEL_GRACE_MS};
use crate::netplan::{
    default_name, default_name_of, guest_address, guest_ip_of, host_address, host_ip_of,
    mac_address, mac_of, tap_name, tap_name_of, PREFIX_LEN,
};
use crate::registry::{deleted, has_name, lookup, InstanceMetadata, RecordView, Registry};
use crate::text::{copy_text, ends_with, hex2, opt_text, push_hex2, push_text, starts_with};

verus! {

/// Where the state record of VM `name` is kept: /tmp/stoker-<name>.json.
pub open spec fn state_path_of(name: Seq<char>) -> Seq<char> {
    "/tmp/stoker-"@ + name + ".json"@
}

/// The control channel of VM `name`: /tmp/firecracker-<name>.socket.
pub open spec fn socket_path_of(name: Seq<char>) -> Seq<char> {
    "/tmp/firecracker-"@ + name + ".socket"@
}

/// The hypervisor log of VM `name`: /tmp/firecracker-<name>.log.
pub open spec fn log_path_of(name: Seq<char>) -> Seq<char> {
    "/tmp/firecracker-"@ + name + ".log"@
}

/// The private copy of the root image of VM `name`: /tmp/rootfs-<name>.ext4.
pub open spec fn rootfs_path_of(name: Seq<char>) -> Seq<char> {
    "/tmp/rootfs-"@ + name + ".ext4"@
}

fn framed(prefix: &str, name: &String, suffix: &str) -> (r: String)
    ensures
        r@ == prefix@ + name@ + suffix@,
{
    let mut s = String::new();
    push_text(&mut s, prefix);
    push_text(&mut s, name.as_str());
    push_text(&mut s, suffix);
    s
}

/// The state record path of VM `name`.
pub fn state_path(name: &String) -> (r: String)
    ensures
        r@ == state_path_of(name@),
{
    framed("/tmp/stoker-", name, ".json")
}

/// The control channel path of VM `name`.
pub fn socket_path(name: &String) -> (r: String)
    ensures
        r@ == socket_path_of(name@),
{
    framed("/tmp/firecracker-", name, ".socket")
}

/// The hypervisor log path of VM `name`.
pub fn log_path(name: &String) -> (r: String)
    ensures
        r@ == log_path_of(name@),
{
    framed("/tmp/firecracker-", name, ".log")
}

/// The root image copy path of VM `name`.
pub fn rootfs_path(name: &String) -> (r: String)
    ensures
        r@ == rootfs_path_of(name@),
{
    framed("/tmp/rootfs-", name, ".ext4")
}

/// Whether a file name in the state directory is a VM state record: stoker-*.json.
pub fn is_state_file_name(file_name: &str) -> (r: bool)
    ensures
        r == ("stoker-"@.len() <= file_name@.len() && file_name@.subrange(0, 7) == "stoker-"@
            && ".json"@.len() <= file_name@.len() && file_name@.subrange(
            file_name@.len() - 5,
            file_name@.len() as int,
        ) == ".json"@),
{
    proof {
        reveal_strlit("stoker-");
        reveal_strlit(".json");
    }
    starts_with(file_name, "stoker-") && ends_with(file_name, ".json")
}

/// Everything a new VM is set up with, derived from its id and the caller's choices.
pub struct VmPlan {
    pub id: u8,
    pub name: String,
    pub mode: String,
    pub image: String,
    pub host_ip: String,
    pub guest_ip: String,
    pub mac_address: String,
    pub tap_device: String,
    pub socket_path: String,
    pub log_path: String,
    pub rootfs_path: String,
    pub state_path: String,
}

impl VmPlan {
    /// The plan of VM `id` with the given mode, name and image choices.
    pub open spec fn planned(
        &self,
        id: u8,
        mode: Seq<char>,
        name: Option<Seq<char>>,
        image: Option<Seq<char>>,
    ) -> bool {
        let n = match name {
            Some(n) => n,
            None => default_name_of(id),
        };
        &&& self.id == id
        &&& self.name@ == n
        &&& self.mode@ == mode
        &&& self.image@ == match image {
            Some(i) => i,
            None => DEFAULT_IMAGE@,
        }
        &&& self.host_ip@ == host_ip_of(id)
        &&& self.guest_ip@ == guest_ip_of(id)
        &&& self.mac_address@ == mac_of(id)
        &&& self.tap_device@ == tap_name_of(id)
        &&& self.socket_path@ == socket_path_of(n)
        &&& self.log_path@ == log_path_of(n)
        &&& self.rootfs_path@ == rootfs_path_of(n)
        &&& self.state_path@ == state_path_of(n)
    }
}

/// The plan of VM `id`: its name (chosen, or `fc-<id in hex>`), image (chosen, or the
/// default), addresses, MAC, tap interface and file paths.
pub fn plan_vm(id: u8, mode: &String, name: Option<String>, image: Option<String>) -> (r: VmPlan)
    ensures
        r.planned(id, mode@, opt_text(name), opt_text(image)),
{
    let name = match name {
        Some(n) => n,
        None => default_name(id),
    };
    let image = match image {
        Some(i) => i,
        None => copy_text(DEFAULT_IMAGE),
    };
    VmPlan {
        id,
        mode: mode.clone(),
        image,
        host_ip: host_address(id),
        guest_ip: guest_address(id),
        mac_address: mac_address(id),
        tap_device: tap_name(id),
        socket_path: socket_path(&name),
        log_path: log_path(&name),
        rootfs_path: rootfs_path(&name),
        state_path: state_path(&name),
        name,
    }
}

/// The record persisted for a running VM of plan `plan` whose hypervisor has process `pid`.
pub open spec fn record_of(plan: &VmPlan, pid: u32) -> RecordView {
    RecordView {
        id: plan.id,
        name: plan.name@,
        mode: plan.mode@,
        guest_ip: plan.guest_ip@,
        host_ip: plan.host_ip@,
        mac_address: plan.mac_address@,
        tap_device: plan.tap_device@,
        pid,
    }
}

/// The record of a running VM of this plan.
pub fn make_record(plan: &VmPlan, pid: u32) -> (r: InstanceMetadata)
    ensures
        r@ == record_of(plan, pid),
{
    InstanceMetadata {
        id: plan.id,
        name: plan.name.clone(),
        mode: plan.mode.clone(),
        guest_ip: plan.guest_ip.clone(),
        host_ip: plan.host_ip.clone(),
        mac_address: plan.mac_address.clone(),
        tap_device: plan.tap_device.clone(),
        pid,
    }
}

} // verus!

verus! {

/// Number of control calls in the boot sequence.
pub const BOOT_CALLS: usize = 5;

/// What the caller must do next for a VM being started.
pub enum RunAction {
    /// Create (or reset) the tap interface, give it the host address, bring it up, enable
    /// forwarding and install NAT; report `Done` or `Failed`.
    SetupNetwork { tap_device: String, host_ip: String, prefix_len: u8 },
    /// Copy the image to the VM's private path (`NotFound` when it is missing); report `Done`
    /// or `Failed`.
    PrepareRootfs { image_path: String, rootfs_path: String },
    /// Create the log file, remove a stale channel file and spawn the hypervisor on the
    /// channel; report `Spawned` or `Failed`.
    Spawn { binary: String, socket_path: String, log_path: String },
    /// Sleep, then report `Done`.
    Wait { millis: u64 },
    /// Send this control call and report its `Response`, or `Failed` when it could not be sent.
    Put { socket_path: String, request: ApiRequest },
    /// Wait until the guest is reachable, open a session, run the command and report
    /// `GuestExited`, or `Failed`.
    BootstrapGuest { guest_ip: String, host_ip: String, command: String },
    /// Persist this record; report `Done` or `Failed`.
    Persist { record: InstanceMetadata },
    /// The VM runs; nothing is left to do.
    Finished { pid: u32 },
    /// The run failed with this error; nothing is left to do.
    Abort { error: VmError },
}

pub open spec fn is_setup_network(a: RunAction, tap: Seq<char>, host: Seq<char>, prefix: u8) -> bool {
    match a {
        RunAction::SetupNetwork { tap_device, host_ip, prefix_len } => tap_device@ == tap
            && host_ip@ == host && prefix_len == prefix,
        _ => false,
    }
}

pub open spec fn is_prepare(a: RunAction, image: Seq<char>, rootfs: Seq<char>) -> bool {
    match a {
        RunAction::PrepareRootfs { image_path, rootfs_path } => image_path@ == image
            && rootfs_path@ == rootfs,
        _ => false,
    }
}

pub open spec fn is_spawn(a: RunAction, bin: Seq<char>, socket: Seq<char>, log: Seq<char>) -> bool {
    match a {
        RunAction::Spawn { binary, socket_path, log_path } => binary@ == bin && socket_path@
            == socket && log_path@ == log,
        _ => false,
    }
}

pub open spec fn is_put(a: RunAction, socket: Seq<char>, req: RequestView) -> bool {
    match a {
        RunAction::Put { socket_path, request } => socket_path@ == socket && request@ == req,
        _ => false,
    }
}

pub open spec fn is_bootstrap(a: RunAction, guest: Seq<char>, host: Seq<char>, cmd: Seq<char>) -> bool {
    match a {
        RunAction::BootstrapGuest { guest_ip, host_ip, command } => guest_ip@ == guest
            && host_ip@ == host && command@ == cmd,
        _ => false,
    }
}

pub open spec fn is_persist(a: RunAction, rec: RecordView) -> bool {
    match a {
        RunAction::Persist { record } => record@ == rec,
        _ => false,
    }
}

pub open spec fn aborts_api(a: RunAction, status: u16, body: Seq<char>) -> bool {
    match a {
        RunAction::Abort { error: VmError::ApiError { status: s, body: b } } => s == status && b@
            == body,
        _ => false,
    }
}

pub open spec fn aborts_guest(a: RunAction, stdout: Seq<char>, stderr: Seq<char>) -> bool {
    match a {
        RunAction::Abort { error: VmError::GuestConfigError { stdout: o, stderr: e } } => o@
            == stdout && e@ == stderr,
        _ => false,
    }
}

pub open spec fn aborts_unexpected(a: RunAction) -> bool {
    match a {
        RunAction::Abort { error: VmError::ProcessError { .. } } => true,
        _ => false,
    }
}

/// The outcome of the last action.
pub enum RunEvent {
    Done,
    Spawned { pid: u32 },
    Response { status: u16, body: String },
    GuestExited { exit_status: i32, stdout: String, stderr: String },
    Failed { error: VmError },
}

/// Which outcome a run waits for.
#[derive(PartialEq, Eq, Structural, Clone, Copy, Debug)]
pub enum RunPhase {
    AwaitNetwork,
    AwaitRootfs,
    AwaitSpawn,
    AwaitGrace,
    AwaitResponse { index: usize },
    AwaitGuest,
    AwaitPersist,
    Finished,
    Failed,
}

/// Whether `event` is an outcome that `phase` waits for (a failure always is).
pub open spec fn expected_event(phase: RunPhase, event: RunEvent) -> bool {
    match event {
        RunEvent::Failed { .. } => true,
        RunEvent::Done => phase is AwaitNetwork || phase is AwaitRootfs || phase is AwaitGrace
            || phase is AwaitPersist,
        RunEvent::Spawned { .. } => phase is AwaitSpawn,
        RunEvent::Response { .. } => phase is AwaitResponse,
        RunEvent::GuestExited { .. } => phase is AwaitGuest,
    }
}

/// The start of one VM: network, root image, hypervisor, control calls, guest
/// configuration, record.
pub struct RunSession {
    pub plan: VmPlan,
    pub requests: Vec<ApiRequest>,
    pub phase: RunPhase,
    pub pid: u32,
}

impl RunSession {
    pub open spec fn wf(&self) -> bool {
        &&& self.requests@.map_values(|q: ApiRequest| q@) == boot_sequence(
            self.plan.log_path@,
            asset_path_of(KERNEL_IMAGE@),
            self.plan.rootfs_path@,
            self.plan.mac_address@,
            self.plan.tap_device@,
        )
        &&& self.phase matches RunPhase::AwaitResponse { index } ==> index < BOOT_CALLS
    }

    pub open spec fn is_over(&self) -> bool {
        self.phase is Finished || self.phase is Failed
    }

    /// The session of `plan`, and its first action: set up the network.
    pub fn start(plan: VmPlan) -> (r: (RunSession, RunAction))
        ensures
            r.0.wf(),
            r.0.plan == plan,
            r.0.phase == RunPhase::AwaitNetwork,
            is_setup_network(r.1, plan.tap_device@, plan.host_ip@, PREFIX_LEN),
    {
        let kernel = get_asset_path(KERNEL_IMAGE);
        let requests = boot_requests(
            &plan.log_path,
            &kernel,
            &plan.rootfs_path,
            &plan.mac_address,
            &plan.tap_device,
        );
        let action = RunAction::SetupNetwork {
            tap_device: plan.tap_device.clone(),
            host_ip: plan.host_ip.clone(),
            prefix_len: PREFIX_LEN,
        };
        (RunSession { plan, requests, phase: RunPhase::AwaitNetwork, pid: 0 }, action)
    }

    fn put(&self, index: usize) -> (a: RunAction)
        requires
            self.wf(),
            index < BOOT_CALLS,
        ensures
            is_put(a, self.plan.socket_path@, self.requests@[index as int]@),
    {
        assert(self.requests@.map_values(|q: ApiRequest| q@).len() == BOOT_CALLS);
        let q = &self.requests[index];
        let mut path = String::new();
        push_text(&mut path, q.path.as_str());
        let mut body = String::new();
        push_text(&mut body, q.body.as_str());
        assert(path@ =~= q.path@);
        assert(body@ =~= q.body@);
        RunAction::Put {
            socket_path: self.plan.socket_path.clone(),
            request: ApiRequest { path, body },
        }
    }

    /// Takes the outcome of the last action and gives the next action. Any failure aborts
    /// with its error, and so does an outcome the session does not wait for; a control
    /// response outside 2xx aborts with an `ApiError`, a failed guest command with a
    /// `GuestConfigError`. The record is persisted only after all control calls and the guest
    /// command succeeded.
    pub fn step(&mut self, event: RunEvent) -> (a: RunAction)
        requires
            old(self).wf(),
            !old(self).is_over(),
        ensures
            final(self).wf(),
            final(self).plan == old(self).plan,
            final(self).requests == old(self).requests,
            old(self).phase != RunPhase::AwaitSpawn ==> final(self).pid == old(self).pid,
            event matches RunEvent::Failed { error } ==> final(self).phase == RunPhase::Failed
                && a == (RunAction::Abort { error }),
            !expected_event(old(self).phase, event) ==> final(self).phase == RunPhase::Failed
                && aborts_unexpected(a),
            old(self).phase == RunPhase::AwaitNetwork && event is Done ==> final(self).phase
                == RunPhase::AwaitRootfs && is_prepare(
                a,
                asset_path_of(image_file_of(old(self).plan.image@)),
                old(self).plan.rootfs_path@,
            ),
            old(self).phase == RunPhase::AwaitRootfs && event is Done ==> final(self).phase
                == RunPhase::AwaitSpawn && is_spawn(
                a,
                asset_path_of(HYPERVISOR_BINARY@),
                old(self).plan.socket_path@,
                old(self).plan.log_path@,
            ),
            event matches RunEvent::Spawned { pid } ==> (old(self).phase == RunPhase::AwaitSpawn
                ==> final(self).phase == RunPhase::AwaitGrace && final(self).pid == pid && a == (
            RunAction::Wait { millis: CHANNEL_GRACE_MS })),
            old(self).phase == RunPhase::AwaitGrace && event is Done ==> final(self).phase == (
            RunPhase::AwaitResponse { index: 0 }) && is_put(
                a,
                old(self).plan.socket_path@,
                old(self).requests@[0]@,
            ),
            event matches RunEvent::Response { status, body } ==> (old(self).phase matches RunPhase::AwaitResponse { index }
                ==> {
                &&& !is_success_status(status) ==> final(self).phase == RunPhase::Failed
                    && aborts_api(a, status, body@)
                &&& is_success_status(status) && index + 1 < BOOT_CALLS ==> final(self).phase == (
                RunPhase::AwaitResponse { index: (index + 1) as usize }) && is_put(
                    a,
                    old(self).plan.socket_path@,
                    old(self).requests@[index + 1]@,
                )
                &&& is_success_status(status) && index + 1 == BOOT_CALLS ==> final(self).phase
                    == RunPhase::AwaitGuest && is_bootstrap(
                    a,
                    old(self).plan.guest_ip@,
                    old(self).plan.host_ip@,
                    guest_command_text(old(self).plan.guest_ip@, old(self).plan.host_ip@),
                )
            }),
            event matches RunEvent::GuestExited { exit_status, stdout, stderr } ==> (old(self).phase
                == RunPhase::AwaitGuest ==> {
                &&& exit_status == 0 ==> final(self).phase == RunPhase::AwaitPersist && is_persist(
                    a,
                    record_of(&old(self).plan, old(self).pid),
                )
                &&& exit_status != 0 ==> final(self).phase == RunPhase::Failed && aborts_guest(
                    a,
                    stdout@,
                    stderr@,
                )
            }),
            old(self).phase == RunPhase::AwaitPersist && event is Done ==> final(self).phase
                == RunPhase::Finished && a == (RunAction::Finished { pid: old(self).pid }),
    {
        let phase = self.phase;
        match event {
            RunEvent::Failed { error } => {
                self.phase = RunPhase::Failed;
                RunAction::Abort { error }
            },
            RunEvent::Done => {
                match phase {
                    RunPhase::AwaitNetwork => {
                        self.phase = RunPhase::AwaitRootfs;
                        RunAction::PrepareRootfs {
                            image_path: image_path(self.plan.image.as_str()),
                            rootfs_path: self.plan.rootfs_path.clone(),
                        }
                    },
                    RunPhase::AwaitRootfs => {
                        self.phase = RunPhase::AwaitSpawn;
                        RunAction::Spawn {
                            binary: get_asset_path(HYPERVISOR_BINARY),
                            socket_path: self.plan.socket_path.clone(),
                            log_path: self.plan.log_path.clone(),
                        }
                    },
                    RunPhase::AwaitGrace => {
                        self.phase = RunPhase::AwaitResponse { index: 0 };
                        self.put(0)
                    },
                    RunPhase::AwaitPersist => {
                        self.phase = RunPhase::Finished;
                        RunAction::Finished { pid: self.pid }
                    },
                    _ => self.unexpected(),
                }
            },
            RunEvent::Spawned { pid } => {
                if phase == RunPhase::AwaitSpawn {
                    self.pid = pid;
                    self.phase = RunPhase::AwaitGrace;
                    RunAction::Wait { millis: CHANNEL_GRACE_MS }
                } else {
                    self.unexpected()
                }
            },
            RunEvent::Response { status, body } => {
                match phase {
                    RunPhase::AwaitResponse { index } => {
                        match check_response(status, body) {
                            Err(error) => {
                                self.phase = RunPhase::Failed;
                                RunAction::Abort { error }
                            },
                            Ok(()) => {
                                if index + 1 < BOOT_CALLS {
                                    self.phase = RunPhase::AwaitResponse { index: index + 1 };
                                    self.put(index + 1)
                                } else {
                                    self.phase = RunPhase::AwaitGuest;
                                    RunAction::BootstrapGuest {
                                        guest_ip: self.plan.guest_ip.clone(),
                                        host_ip: self.plan.host_ip.clone(),
                                        command: guest_network_command(
                                            &self.plan.guest_ip,
                                            &self.plan.host_ip,
                                        ),
                                    }
                                }
                            },
                        }
                    },
                    _ => self.unexpected(),
                }
            },
            RunEvent::GuestExited { exit_status, stdout, stderr } => {
                if phase == RunPhase::AwaitGuest {
                    match check_guest_exit(exit_status, stdout, stderr) {
                        Err(error) => {
                            self.phase = RunPhase::Failed;
                            RunAction::Abort { error }
                        },
                        Ok(()) => {
                            self.phase = RunPhase::AwaitPersist;
                            RunAction::Persist { record: make_record(&self.plan, self.pid) }
                        },
                    }
                } else {
                    self.unexpected()
                }
            },
        }
    }

    fn unexpected(&mut self) -> (a: RunAction)
        ensures
            final(self).phase == RunPhase::Failed,
            final(self).plan == old(self).plan,
            final(self).requests == old(self).requests,
            final(self).pid == old(self).pid,
            aborts_unexpected(a),
    {
        self.phase = RunPhase::Failed;
        RunAction::Abort {
            error: VmError::ProcessError { message: copy_text("unexpected outcome for this step") },
        }
    }
}

} // verus!

verus! {

/// What tearing down a VM involves: its process, its interface and its files.
pub struct RemovalPlan {
    pub pid: u32,
    pub tap_device: String,
    pub state_path: String,
    pub socket_path: String,
    pub log_path: String,
    pub rootfs_path: String,
}

/// Starts the removal of VM `name`. Without a record it fails with `NotFound` and changes
/// nothing. Otherwise the record leaves the registry at once, whatever the teardown of the
/// process and the interface later gives, so that its id becomes free again; the plan
/// names the process, the interface and the files to remove.
pub fn begin_removal(registry: &mut Registry, name: &String) -> (r: Result<RemovalPlan, VmError>)
    requires
        old(registry).wf(),
    ensures
        final(registry).wf(),
        r is Err <==> !has_name(old(registry)@, name@),
        r matches Err(e) ==> e is NotFound && final(registry)@ == old(registry)@,
        r matches Ok(p) ==> {
            let rec = lookup(old(registry)@, name@)->Some_0;
            &&& final(registry)@ == deleted(old(registry)@, name@)
            &&& p.pid == rec.pid
            &&& p.tap_device@ == rec.tap_device
            &&& p.state_path@ == state_path_of(name@)
            &&& p.socket_path@ == socket_path_of(name@)
            &&& p.log_path@ == log_path_of(name@)
            &&& p.rootfs_path@ == rootfs_path_of(name@)
        },
{
    match registry.load(name) {
        Err(e) => Err(e),
        Ok(rec) => {
            registry.delete(name);
            Ok(
                RemovalPlan {
                    pid: rec.pid,
                    tap_device: rec.tap_device,
                    state_path: state_path(name),
                    socket_path: socket_path(name),
                    log_path: log_path(name),
                    rootfs_path: rootfs_path(name),
                },
            )
        },
    }
}

/// The label of VM `id` in listings: fc_<id in hex>.
pub open spec fn vm_label_of(id: u8) -> Seq<char> {
    "fc_"@ + hex2(id)
}

/// The label of VM `id` in listings.
pub fn vm_label(id: u8) -> (r: String)
    ensures
        r@ == vm_label_of(id),
{
    let mut s = String::new();
    push_text(&mut s, "fc_");
    push_hex2(&mut s, id);
    s
}

} // verus!
