use vstd::prelude::*;

use crate::error::VmError;
use crate::text::push_text;

verus! {

/// The JSON string literal that encodes `s`, quotes and escapes included.
pub uninterp spec fn json_string_of(s: Seq<char>) -> Seq<char>;

/// Relies on serde_json's `Display` for `Value::String`: the compact JSON text of a string,
/// which depends on the characters alone.
#[verifier::external_body]
fn json_quote(s: &String) -> (r: String)
    ensures
        r@ == json_string_of(s@),
{
    serde_json::Value::String(s.clone()).to_string()
}

/// One write-style call on the hypervisor's control channel.
pub struct ApiRequest {
    pub path: String,
    pub body: String,
}

/// The mathematical value of a control call: resource path and JSON body.
pub struct RequestView {
    pub path: Seq<char>,
    pub body: Seq<char>,
}

impl View for ApiRequest {
    type V = RequestView;

    open spec fn view(&self) -> RequestView {
        RequestView { path: self.path@, body: self.body@ }
    }
}

/// Kernel command line handed to every guest.
pub open spec fn boot_args_text() -> Seq<char> {
    "console=ttyS0 reboot=k panic=1 pci=off keep_bootcon"@
}

pub open spec fn logger_body(log_path: Seq<char>) -> Seq<char> {
    "{\"log_path\":"@ + json_string_of(log_path)
        + ",\"level\":\"Debug\",\"show_level\":true,\"show_log_origin\":true}"@
}

pub open spec fn boot_source_body(kernel_path: Seq<char>) -> Seq<char> {
    "{\"kernel_image_path\":"@ + json_string_of(kernel_path) + ",\"boot_args\":"@
        + json_string_of(boot_args_text()) + "}"@
}

pub open spec fn drive_body(rootfs_path: Seq<char>) -> Seq<char> {
    "{\"drive_id\":\"rootfs\",\"path_on_host\":"@ + json_string_of(rootfs_path)
        + ",\"is_root_device\":true,\"is_read_only\":false}"@
}

pub open spec fn net_body(mac: Seq<char>, tap: Seq<char>) -> Seq<char> {
    "{\"iface_id\":\"net1\",\"guest_mac\":"@ + json_string_of(mac) + ",\"host_dev_name\":"@
        + json_string_of(tap) + "}"@
}

pub open spec fn start_body() -> Seq<char> {
    "{\"action_type\":\"InstanceStart\"}"@
}

/// The calls that configure and start a VM, in the order they are sent: logger, boot
/// source, root drive, network interface, start action.
pub open spec fn boot_sequence(
    log_path: Seq<char>,
    kernel_path: Seq<char>,
    rootfs_path: Seq<char>,
    mac: Seq<char>,
    tap: Seq<char>,
) -> Seq<RequestView> {
    seq![
        RequestView { path: "/logger"@, body: logger_body(log_path) },
        RequestView { path: "/boot-source"@, body: boot_source_body(kernel_path) },
        RequestView { path: "/drives/rootfs"@, body: drive_body(rootfs_path) },
        RequestView { path: "/network-interfaces/net1"@, body: net_body(mac, tap) },
        RequestView { path: "/actions"@, body: start_body() },
    ]
}

fn request(path: &str, body: String) -> (r: ApiRequest)
    ensures
        r@ == (RequestView { path: path@, body: body@ }),
{
    let mut p = String::new();
    push_text(&mut p, path);
    assert(p@ =~= path@);
    ApiRequest { path: p, body }
}

/// The control calls that configure and start a VM, in the order they must be sent.
pub fn boot_requests(
    log_path: &String,
    kernel_path: &String,
    rootfs_path: &String,
    mac: &String,
    tap: &String,
) -> (r: Vec<ApiRequest>)
    ensures
        r@.map_values(|q: ApiRequest| q@) == boot_sequence(
            log_path@,
            kernel_path@,
            rootfs_path@,
            mac@,
            tap@,
        ),
{
    let mut logger = String::new();
    push_text(&mut logger, "{\"log_path\":");
    logger.append(json_quote(log_path).as_str());
    push_text(&mut logger, ",\"level\":\"Debug\",\"show_level\":true,\"show_log_origin\":true}");
    assert(logger@ =~= logger_body(log_path@));

    let mut boot = String::new();
    push_text(&mut boot, "{\"kernel_image_path\":");
    boot.append(json_quote(kernel_path).as_str());
    push_text(&mut boot, ",\"boot_args\":");
    let mut args = String::new();
    push_text(&mut args, "console=ttyS0 reboot=k panic=1 pci=off keep_bootcon");
    assert(args@ =~= boot_args_text());
    boot.append(json_quote(&args).as_str());
    push_text(&mut boot, "}");
    assert(boot@ =~= boot_source_body(kernel_path@));

    let mut drive = String::new();
    push_text(&mut drive, "{\"drive_id\":\"rootfs\",\"path_on_host\":");
    drive.append(json_quote(rootfs_path).as_str());
    push_text(&mut drive, ",\"is_root_device\":true,\"is_read_only\":false}");
    assert(drive@ =~= drive_body(rootfs_path@));

    let mut net = String::new();
    push_text(&mut net, "{\"iface_id\":\"net1\",\"guest_mac\":");
    net.append(json_quote(mac).as_str());
    push_text(&mut net, ",\"host_dev_name\":");
    net.append(json_quote(tap).as_str());
    push_text(&mut net, "}");
    assert(net@ =~= net_body(mac@, tap@));

    let mut start = String::new();
    push_text(&mut start, "{\"action_type\":\"InstanceStart\"}");

    let mut out: Vec<ApiRequest> = Vec::new();
    out.push(request("/logger", logger));
    out.push(request("/boot-source", boot));
    out.push(request("/drives/rootfs", drive));
    out.push(request("/network-interfaces/net1", net));
    out.push(request("/actions", start));
    assert(out@.map_values(|q: ApiRequest| q@) =~= boot_sequence(
        log_path@,
        kernel_path@,
        rootfs_path@,
        mac@,
        tap@,
    ));
    out
}

/// Whether an HTTP status is a success (2xx).
pub open spec fn is_success_status(status: u16) -> bool {
    200 <= status <= 299
}

/// The outcome of a control call from its response: success for any 2xx status, else an
/// `ApiError` carrying the status and the response body.
pub fn check_response(status: u16, body: String) -> (r: Result<(), VmError>)
    ensures
        r is Ok <==> is_success_status(status),
        r matches Err(e) ==> e matches VmError::ApiError { status: s, body: b } && s == status
            && b@ == body@,
{
    if 200 <= status && status <= 299 {
        Ok(())
    } else {
        Err(VmError::ApiError { status, body })
    }
}

/// The boot source and the root drive are configured before the start action, which is
/// the last call; the logger is the first.
pub proof fn lemma_boot_order(
    log_path: Seq<char>,
    kernel_path: Seq<char>,
    rootfs_path: Seq<char>,
    mac: Seq<char>,
    tap: Seq<char>,
)
    ensures
        ({
            let s = boot_sequence(log_path, kernel_path, rootfs_path, mac, tap);
            &&& s.len() == 5
            &&& s[0].path == "/logger"@
            &&& s[1].path == "/boot-source"@
            &&& s[2].path == "/drives/rootfs"@
            &&& s[4].path == "/actions"@
            &&& s[4].body == start_body()
            &&& forall|i: int| 0 <= i < 4 ==> #[trigger] s[i].path != "/actions"@
        }),
{
    reveal_strlit("/logger");
    reveal_strlit("/boot-source");
    reveal_strlit("/drives/rootfs");
    reveal_strlit("/network-interfaces/net1");
    reveal_strlit("/actions");
    let s = boot_sequence(log_path, kernel_path, rootfs_path, mac, tap);
    assert(s[0].path[1] != "/actions"@[1]);
    assert(s[1].path[1] != "/actions"@[1]);
    assert(s[2].path[1] != "/actions"@[1]);
    assert(s[3].path[1] != "/actions"@[1]);
}

} // verus!
