//! The computing parts of the setup page: device recognition, status
//! reports, systemctl action handling, shell quoting, version facts and
//! launch-context detection.

use vstd::prelude::*;

use std::path::{Path, PathBuf};

pub use crate::api::{BUS_NAME, INTERFACE_NAME};

verus! {

/// Where the udev rule is installed.
pub const UDEV_RULE_INSTALL_PATH: &'static str = "/etc/udev/rules.d/70-g560.rules";
/// The desktop-mode service unit.
pub const SERVICE_UNIT_NAME: &'static str = "logig560-desktop.service";

pub struct UdevStatus {
    pub rule_present: bool,
    pub rule_path: String,
    pub device_present: bool,
    pub device_writable: bool,
}

pub struct ServiceStatus {
    pub unit_installed: bool,
    pub unit_path: String,
    pub enabled: bool,
    pub active: bool,
    pub failed: bool,
    pub last_status: Option<String>,
}

pub enum ActionOutcome {
    Succeeded { message: String },
    Failed { error: String },
}

pub struct VersionInfo {
    pub gui_version: String,
    pub api_version: u32,
    pub bus_name: String,
    pub interface_name: String,
    pub build_target: String,
    pub distribution: Option<String>,
    pub session_type: Option<String>,
    pub desktop: Option<String>,
    pub kernel: Option<String>,
}

/// A USB device descriptor of the G560: vendor 0x046d and product 0x0a78,
/// little-endian at bytes 8 through 11.
pub open spec fn is_g560_descriptor_spec(descriptor: Seq<u8>) -> bool {
    descriptor[8] == 0x6d && descriptor[9] == 0x04 && descriptor[10] == 0x78 && descriptor[11]
        == 0x0a
}

/// Whether the first bytes read from a USB device node identify a G560.
pub fn is_g560_descriptor(descriptor: &[u8; 18]) -> (found: bool)
    ensures
        found == is_g560_descriptor_spec(descriptor@),
{
    descriptor[8] == 0x6d && descriptor[9] == 0x04 && descriptor[10] == 0x78 && descriptor[11]
        == 0x0a
}

/// The udev status report, from whether the rule file exists and whether a
/// G560 node was found and is writable.
pub fn check_udev_status(rule_present: bool, device: (bool, bool)) -> (status: UdevStatus)
    ensures
        status.rule_present == rule_present,
        status.rule_path@ == UDEV_RULE_INSTALL_PATH@,
        status.device_present == device.0,
        status.device_writable == device.1,
{
    UdevStatus {
        rule_present,
        rule_path: String::from_str(UDEV_RULE_INSTALL_PATH),
        device_present: device.0,
        device_writable: device.1,
    }
}

/// The service status report. A unit path that could not be determined is
/// reported as empty.
pub fn check_service_status(
    unit_path: Option<String>,
    unit_installed: bool,
    enabled: bool,
    active: bool,
    failed: bool,
    last_status: Option<String>,
) -> (status: ServiceStatus)
    ensures
        status.unit_installed == unit_installed,
        status.unit_path@ == match unit_path {
            Some(path) => path@,
            None => Seq::<char>::empty(),
        },
        status.enabled == enabled,
        status.active == active,
        status.failed == failed,
        status.last_status == last_status,
{
    let unit_path = match unit_path {
        Some(path) => path,
        None => String::new(),
    };
    ServiceStatus { unit_installed, unit_path, enabled, active, failed, last_status }
}

/// The systemctl actions the setup page may run on the service.
pub open spec fn supported_action(action: Seq<char>) -> bool {
    action == "start"@ || action == "stop"@ || action == "restart"@ || action == "reload"@
}

pub(crate) fn str_eq(a: &str, b: &str) -> (same: bool)
    ensures
        same == (a@ == b@),
{
    let a_len = a.unicode_len();
    let b_len = b.unicode_len();
    if a_len != b_len {
        return false;
    }
    let mut i: usize = 0;
    while i < a_len
        invariant
            a_len == a@.len(),
            b_len == b@.len(),
            a_len == b_len,
            i <= a_len,
            forall|j: int| 0 <= j < i ==> a@[j] == b@[j],
        decreases a_len - i,
    {
        if a.get_char(i) != b.get_char(i) {
            return false;
        }
        i = i + 1;
    }
    assert(a@ =~= b@);
    true
}

/// Runs `run_systemctl` with a supported action and reports the outcome;
/// an unsupported action is refused without running anything.
pub fn service_action<F: FnOnce(&str) -> bool>(action: &str, run_systemctl: F) -> (outcome: ActionOutcome)
    requires
        call_requires(run_systemctl, (action,)),
    ensures
        !supported_action(action@) ==> (outcome matches ActionOutcome::Failed { error } && error@
            == "unsupported systemctl action: "@ + action@),
        supported_action(action@) ==> exists|succeeded: bool| call_ensures(run_systemctl, (action,), succeeded)
            && if succeeded {
                (outcome matches ActionOutcome::Succeeded { message } && message@ == "systemctl --user "@
                    + action@ + " succeeded"@)
            } else {
                (outcome matches ActionOutcome::Failed { error } && error@ == "systemctl --user "@
                    + action@ + " failed"@)
            },
{
    let supported = str_eq(action, "start") || str_eq(action, "stop") || str_eq(action, "restart")
        || str_eq(action, "reload");
    if !supported {
        let mut error = String::from_str("unsupported systemctl action: ");
        error.append(action);
        return ActionOutcome::Failed { error };
    }
    let succeeded = run_systemctl(action);
    let mut text = String::from_str("systemctl --user ");
    text.append(action);
    if succeeded {
        text.append(" succeeded");
        ActionOutcome::Succeeded { message: text }
    } else {
        text.append(" failed");
        ActionOutcome::Failed { error: text }
    }
}

/// The text of `value` with every single quote replaced by `'\''`.
pub open spec fn quote_body(value: Seq<char>) -> Seq<char>
    decreases value.len(),
{
    if value.len() == 0 {
        Seq::empty()
    } else {
        quote_body(value.drop_last()) + if value.last() == '\'' {
            seq!['\'', '\\', '\'', '\'']
        } else {
            seq![value.last()]
        }
    }
}

/// Quotes a string for a POSIX shell: wrapped in single quotes, each
/// embedded single quote closing, escaping and reopening the quoting.
pub fn shell_quote(value: &str) -> (quoted: String)
    ensures
        quoted@ == seq!['\''] + quote_body(value@) + seq!['\''],
{
    let length = value.unicode_len();
    let mut out = String::from_str("'");
    proof {
        reveal_strlit("'");
    }
    let mut i: usize = 0;
    while i < length
        invariant
            length == value@.len(),
            i <= length,
            out@ == seq!['\''] + quote_body(value@.take(i as int)),
        decreases length - i,
    {
        let ch = value.get_char(i);
        assert(value@.take(i + 1).drop_last() =~= value@.take(i as int));
        if ch == '\'' {
            out.append("'\\''");
            proof {
                reveal_strlit("'\\''");
            }
        } else {
            out.append(value.substring_char(i, i + 1));
            assert(value@.subrange(i as int, i + 1) =~= seq![ch]);
        }
        assert(out@ =~= seq!['\''] + quote_body(value@.take(i + 1)));
        i = i + 1;
    }
    out.append("'");
    assert(value@.take(length as int) =~= value@);
    out
}

/// The version report from what the environment gave.
pub fn version_info(
    gui_version: String,
    build_target: String,
    distribution: Option<String>,
    session_type: Option<String>,
    desktop: Option<String>,
    kernel: Option<String>,
) -> (info: VersionInfo)
    ensures
        info.gui_version == gui_version,
        info.api_version == crate::api::API_VERSION,
        info.bus_name@ == BUS_NAME@,
        info.interface_name@ == INTERFACE_NAME@,
        info.build_target == build_target,
        info.distribution == distribution,
        info.session_type == session_type,
        info.desktop == desktop,
        info.kernel == kernel,
{
    VersionInfo {
        gui_version,
        api_version: crate::api::API_VERSION,
        bus_name: String::from_str(BUS_NAME),
        interface_name: String::from_str(INTERFACE_NAME),
        build_target,
        distribution,
        session_type,
        desktop,
        kernel,
    }
}

/// `std::path::PathBuf`, carried through as an opaque value.
#[verifier::external_type_specification]
#[verifier::external_body]
pub struct ExPathBuf(PathBuf);

/// The text of the parent `Path::parent` gives of the path with text
/// `path` (`None` for a root, a bare prefix or an empty path). `Path::parent`
/// depends on the path's bytes alone.
pub uninterp spec fn parent_text(path: Seq<char>) -> Option<Seq<char>>;

/// The text of the path `Path::join` makes of the path with text `base` and
/// the relative name `name`; it depends on the two texts alone.
pub uninterp spec fn joined_text(base: Seq<char>, name: Seq<char>) -> Seq<char>;

/// Calls `Path::parent` on the path with text `path` and copies the parent
/// into a `String`. A parent of UTF-8 text is a prefix of it that ends at a
/// component boundary, so it is UTF-8 too and the copy keeps its text.
/// Claims only that the text is `parent_text` of `path`.
#[verifier::external_body]
pub(crate) fn path_parent(path: &str) -> (parent: Option<String>)
    ensures
        match parent {
            Some(text) => parent_text(path@) == Some(text@),
            None => parent_text(path@) is None,
        },
{
    Path::new(path).parent().map(|parent| parent.to_string_lossy().into_owned())
}

/// Calls `Path::join` on the path with text `base` and the name `name`,
/// and copies the result into a `String` (UTF-8, as both parts are).
/// Claims that the text is `joined_text` of the two, and what the
/// documentation of `Path::join` and `PathBuf::push` shows of it: an
/// absolute name replaces the base, and a relative name extends a base
/// that does not end in a separator after a `/`. What happens with an
/// empty name or a base that ends in `/` is left to the name.
#[verifier::external_body]
pub(crate) fn path_join(base: &str, name: &str) -> (joined: String)
    ensures
        joined@ == joined_text(base@, name@),
        name@.len() > 0 && name@[0] == '/' ==> joined@ == name@,
        name@.len() > 0 && name@[0] != '/' && base@.len() > 0 && base@.last() != '/' ==> joined@
            == base@ + seq!['/'] + name@,
{
    Path::new(base).join(name).to_string_lossy().into_owned()
}

/// How the GUI was launched.
pub enum LaunchContext {
    /// From an AppImage at `appimage_path`.
    AppImage { appimage_path: String },
    /// From a build tree; the service binary is `cli_binary`.
    DevBuild { cli_binary: String },
}

/// The service binary of a build tree whose executable has the path text
/// `exe`: `logig560` beside the executable, or a bare `logig560` when the
/// executable is unknown or has no directory.
pub open spec fn dev_cli_binary(exe: Option<Seq<char>>) -> Seq<char> {
    match exe {
        Some(exe) => match parent_text(exe) {
            Some(directory) => joined_text(directory, "logig560"@),
            None => "logig560"@,
        },
        None => "logig560"@,
    }
}

/// The launch context from the `APPIMAGE` variable (if set) and the path of
/// the running executable (if known). An AppImage path wins; otherwise the
/// service binary is the `logig560` next to the executable, or a bare
/// `logig560` when the executable or its directory is unknown.
pub fn detect_launch_context_with(appimage: Option<String>, current_exe: Option<String>) -> (context: LaunchContext)
    ensures
        appimage matches Some(path) ==> (context matches LaunchContext::AppImage { appimage_path }
            && appimage_path@ == path@),
        appimage is None ==> (context matches LaunchContext::DevBuild { cli_binary }
            && cli_binary@ == dev_cli_binary(
            match current_exe {
                Some(exe) => Some(exe@),
                None => None,
            },
        )),
{
    if let Some(path) = appimage {
        return LaunchContext::AppImage { appimage_path: path };
    }
    let sibling = match current_exe {
        Some(exe) => match path_parent(exe.as_str()) {
            Some(directory) => Some(path_join(directory.as_str(), "logig560")),
            None => None,
        },
        None => None,
    };
    let cli_binary = match sibling {
        Some(path) => path,
        None => {
            proof {
                reveal_strlit("logig560");
            }
            String::from_str("logig560")
        },
    };
    LaunchContext::DevBuild { cli_binary }
}

} // verus!
