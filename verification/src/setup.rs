//! The installer boundary: the messages a setup run reports, the options
//! it takes, the decision which setup stages a device still needs, and
//! the construction of the isolated-process command line that runs a
//! guest command as a user. The filesystem probing and the process
//! spawning belong to the host.

use vstd::prelude::*;

verus! {

/// A message a setup run reports to the progress UI.
#[derive(Debug, Clone, PartialEq)]
pub enum SetupMessage {
    /// A progress line.
    Progress(String),
    /// A failure line.
    Error(String),
}

/// What a setup run is asked to ensure.
#[derive(Debug, Clone)]
pub struct SetupOptions {
    /// The user the guest session runs as.
    pub username: String,
    /// The command that checks whether the guest packages are installed.
    pub checking_command: String,
    /// The packages to install when the check fails.
    pub install_packages: String,
}

/// One stage of the one-time setup, in the order they run.
#[derive(Debug, Clone, Copy, PartialEq, Eq, Structural)]
pub enum SetupStage {
    /// Write the fake system data files the guest kernel interface needs.
    FakeSysdata,
    /// Download and extract the guest root filesystem.
    ExtractRootfs,
    /// Install the guest packages.
    InstallDependencies,
}

/// What a probe of the device found already done.
#[derive(Debug, Clone, Copy, PartialEq, Eq, Structural)]
pub struct SetupProbe {
    /// Whether the fake system data files exist.
    pub fake_sysdata_present: bool,
    /// Whether the guest root filesystem is present and non-empty.
    pub rootfs_present: bool,
    /// Whether the checking command reported the packages installed.
    pub dependencies_installed: bool,
}

/// Decide which setup stages still need to run, in their fixed order:
/// fake system data, then the root filesystem, then the packages. A
/// stage already done is skipped; nothing else is ever scheduled.
pub fn plan_setup(probe: SetupProbe) -> (r: Vec<SetupStage>)
    ensures
        r@ == spec_plan_setup(probe),
{
    let mut r: Vec<SetupStage> = Vec::new();
    if !probe.fake_sysdata_present {
        r.push(SetupStage::FakeSysdata);
    }
    if !probe.rootfs_present {
        r.push(SetupStage::ExtractRootfs);
    }
    if !probe.dependencies_installed {
        r.push(SetupStage::InstallDependencies);
    }
    proof {
        assert(r@ =~= spec_plan_setup(probe));
    }
    r
}

/// The stages a probe leaves to run, in order.
pub open spec fn spec_plan_setup(probe: SetupProbe) -> Seq<SetupStage> {
    (if !probe.fake_sysdata_present {
        seq![SetupStage::FakeSysdata]
    } else {
        Seq::empty()
    }) + (if !probe.rootfs_present {
        seq![SetupStage::ExtractRootfs]
    } else {
        Seq::empty()
    }) + (if !probe.dependencies_installed {
        seq![SetupStage::InstallDependencies]
    } else {
        Seq::empty()
    })
}

/// The progress-reporting backend shown during first-run installation:
/// the port its endpoint listens on, and how far the setup has come.
#[derive(Debug, Clone, Copy, PartialEq, Eq, Structural)]
pub struct WebviewBackend {
    /// The local port the progress endpoint listens on.
    pub socket_port: u16,
    /// Progress in percent, zero to one hundred.
    pub progress: u16,
}

impl WebviewBackend {
    /// A backend listening on `socket_port`, at zero progress.
    pub fn new(socket_port: u16) -> (r: WebviewBackend)
        ensures
            r.socket_port == socket_port,
            r.progress == 0u16,
    {
        WebviewBackend { socket_port, progress: 0 }
    }

    /// Record progress; values past one hundred percent saturate.
    pub fn set_progress(&mut self, progress: u16)
        ensures
            final(self).socket_port == old(self).socket_port,
            final(self).progress == if progress <= 100u16 {
                progress
            } else {
                100u16
            },
    {
        self.progress = if progress <= 100 {
            progress
        } else {
            100
        };
    }
}

/// Why a connection to the progress endpoint is turned away, if it is.
#[derive(Debug, Clone, Copy, PartialEq, Eq, Structural)]
pub enum ConnectionDecision {
    /// Accept the connection.
    Accept,
    /// Reject: a client is already connected.
    RejectBusy,
    /// Reject: the client does not speak the expected protocol.
    RejectProtocol,
}

/// Decide what to do with a new connection to the progress endpoint:
/// one client at a time, and only one that offers the expected
/// protocol, is accepted.
pub fn webview_connection_decision(has_active_client: bool, offers_protocol: bool) -> (r:
    ConnectionDecision)
    ensures
        r == if has_active_client {
            ConnectionDecision::RejectBusy
        } else if !offers_protocol {
            ConnectionDecision::RejectProtocol
        } else {
            ConnectionDecision::Accept
        },
{
    if has_active_client {
        ConnectionDecision::RejectBusy
    } else if !offers_protocol {
        ConnectionDecision::RejectProtocol
    } else {
        ConnectionDecision::Accept
    }
}

/// The fixed leading arguments of the isolated-process launcher: the
/// guest root, the binding of the host's device and kernel interfaces,
/// and a scrubbed environment.
fn proot_fixed_args(fs_root: &str) -> (r: Vec<String>)
    ensures
        r@.len() == 16,
        r@[0]@ == "-r"@,
        r@[1]@ == fs_root@,
        r@[2]@ == "-L"@,
        r@[3]@ == "--link2symlink"@,
        r@[4]@ == "--kill-on-exit"@,
        r@[5]@ == "--root-id"@,
        r@[6]@ == "--cwd=/root"@,
        r@[7]@ == "--bind=/dev"@,
        r@[8]@ == "--bind=/proc"@,
        r@[9]@ == "--bind=/sys"@,
        r@[10]@ == "/usr/bin/env"@,
        r@[11]@ == "-i"@,
        r@[12]@ == "\"HOME=/root\""@,
        r@[13]@ == "\"LANG=C.UTF-8\""@,
        r@[14]@ == "\"PATH=/usr/local/sbin:/usr/local/bin:/usr/sbin:/usr/bin:/sbin:/bin\""@,
        r@[15]@ == "\"TMPDIR=/tmp\""@,
{
    let mut r: Vec<String> = Vec::new();
    r.push(String::from_str("-r"));
    r.push(String::from_str(fs_root));
    r.push(String::from_str("-L"));
    r.push(String::from_str("--link2symlink"));
    r.push(String::from_str("--kill-on-exit"));
    r.push(String::from_str("--root-id"));
    r.push(String::from_str("--cwd=/root"));
    r.push(String::from_str("--bind=/dev"));
    r.push(String::from_str("--bind=/proc"));
    r.push(String::from_str("--bind=/sys"));
    r.push(String::from_str("/usr/bin/env"));
    r.push(String::from_str("-i"));
    r.push(String::from_str("\"HOME=/root\""));
    r.push(String::from_str("\"LANG=C.UTF-8\""));
    r.push(String::from_str(
        "\"PATH=/usr/local/sbin:/usr/local/bin:/usr/sbin:/usr/bin:/sbin:/bin\"",
    ));
    r.push(String::from_str("\"TMPDIR=/tmp\""));
    r
}

/// The argument list that runs `command` inside the guest as `user`: the
/// fixed launcher arguments, then a root shell or a switch to the user,
/// then the command. The root user runs a plain shell; any other user
/// goes through a login switch.
pub fn proot_args(fs_root: &str, command: &str, user: &str) -> (r: Vec<String>)
    ensures
        r@.len() >= 18,
        r@[0]@ == "-r"@,
        r@[1]@ == fs_root@,
        r@.last()@ == command@,
        r@[r@.len() - 2]@ == "-c"@,
        user@ == "root"@ ==> r@.len() == 19 && r@[16]@ == "sh"@,
        user@ != "root"@ ==> r@.len() == 21 && r@[16]@ == "su"@ && r@[17]@ == "-"@ && r@[18]@
            == user@,
{
    let mut r = proot_fixed_args(fs_root);
    if crate::textutil::str_eq(user, "root") {
        r.push(String::from_str("sh"));
    } else {
        r.push(String::from_str("su"));
        r.push(String::from_str("-"));
        r.push(String::from_str(user));
    }
    r.push(String::from_str("-c"));
    r.push(String::from_str(command));
    r
}

} // verus!
