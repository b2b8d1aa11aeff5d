//! The build-tool command cores: given a build environment's plain facts,
//! decide what to run or debug on the attached device. The device I/O
//! itself belongs to the host.

use vstd::prelude::*;

verus! {

/// A platform a build can target.
#[derive(Debug, Clone, Copy, PartialEq, Eq, Structural)]
pub enum Platform {
    /// Android devices.
    Android,
    /// Apple mobile devices.
    Ios,
    /// Linux hosts.
    Linux,
    /// Apple desktop hosts.
    Macos,
    /// Windows hosts.
    Windows,
}

/// The optimization level of a build.
#[derive(Debug, Clone, Copy, PartialEq, Eq, Structural)]
pub enum Opt {
    /// A debug build.
    Debug,
    /// A release build.
    Release,
}

/// The plain facts of a build environment that the commands decide over.
#[derive(Debug, Clone)]
pub struct BuildEnv {
    /// Whether a device is attached.
    pub has_device: bool,
    /// The attached device's platform.
    pub device_platform: Platform,
    /// The attached device's architecture name.
    pub device_arch: String,
    /// The optimization level of the build.
    pub opt: Opt,
    /// The build directory.
    pub build_dir: String,
    /// The path of the built executable.
    pub executable: String,
    /// The output directory of the build.
    pub output: String,
    /// The package's name.
    pub name: String,
    /// The path of the built loadable artefact, on platforms that load
    /// the program as a library.
    pub cargo_artefact: String,
    /// The path of the debug server binary pushed to the device.
    pub lldb_server: String,
}

/// The error of a command that needs a device when none is attached.
#[derive(Debug, Clone, Copy, PartialEq, Eq, Structural)]
pub enum CommandError {
    /// No device specified.
    NoDevice,
}

/// What the run command asks the device layer to do.
#[derive(Debug, Clone)]
pub struct RunAction {
    /// The executable to run on the device.
    pub executable: String,
}

/// What the debug command asks the device layer to do.
#[derive(Debug, Clone)]
pub struct LldbAction {
    /// The cargo directory of the target being debugged.
    pub cargo_dir: String,
    /// The executable to attach to.
    pub executable: String,
    /// The debug server to push, on platforms that need one.
    pub lldb_server: Option<String>,
}

/// The lower-case name of an optimization level.
pub fn opt_name(opt: Opt) -> (r: String)
    ensures
        r@ == match opt {
            Opt::Debug => "debug"@,
            Opt::Release => "release"@,
        },
{
    match opt {
        Opt::Debug => String::from_str("debug"),
        Opt::Release => String::from_str("release"),
    }
}

/// The lower-case name of a platform.
pub fn platform_name(platform: Platform) -> (r: String)
    ensures
        r@ == match platform {
            Platform::Android => "android"@,
            Platform::Ios => "ios"@,
            Platform::Linux => "linux"@,
            Platform::Macos => "macos"@,
            Platform::Windows => "windows"@,
        },
{
    match platform {
        Platform::Android => String::from_str("android"),
        Platform::Ios => String::from_str("ios"),
        Platform::Linux => String::from_str("linux"),
        Platform::Macos => String::from_str("macos"),
        Platform::Windows => String::from_str("windows"),
    }
}

/// Run the built executable on the attached device; with no device the
/// command fails.
pub fn run(env: &BuildEnv) -> (r: Result<RunAction, CommandError>)
    ensures
        match r {
            Ok(action) => env.has_device && action.executable@ == env.executable@,
            Err(e) => !env.has_device && e == CommandError::NoDevice,
        },
{
    if env.has_device {
        Ok(RunAction { executable: env.executable.clone() })
    } else {
        Err(CommandError::NoDevice)
    }
}

/// The cargo directory of a compile target: the build directory joined
/// with the optimization level, the platform, the architecture, and the
/// trailing cargo component.
pub open spec fn spec_cargo_dir(
    build_dir: Seq<char>,
    opt: Seq<char>,
    platform: Seq<char>,
    arch: Seq<char>,
) -> Seq<char> {
    build_dir + "/"@ + opt + "/"@ + platform + "/"@ + arch + "/cargo"@
}

/// Attach the debugger to the built executable on the attached device.
///
/// The executable is chosen by the device's platform: the loadable
/// artefact on platforms that load the program as a library, the output
/// directory or the executable otherwise; platforms that need a debug
/// server get one. With no device the command fails.
pub fn lldb(env: &BuildEnv) -> (r: Result<LldbAction, CommandError>)
    requires
        env.has_device ==> env.device_platform != Platform::Windows,
    ensures
        match r {
            Ok(action) => {
                &&& env.has_device
                &&& action.cargo_dir@ == spec_cargo_dir(env.build_dir@, match env.opt {
                    Opt::Debug => "debug"@,
                    Opt::Release => "release"@,
                }, match env.device_platform {
                    Platform::Android => "android"@,
                    Platform::Ios => "ios"@,
                    Platform::Linux => "linux"@,
                    Platform::Macos => "macos"@,
                    Platform::Windows => "windows"@,
                }, env.device_arch@)
                &&& action.executable@ == match env.device_platform {
                    Platform::Android => env.cargo_artefact@,
                    Platform::Ios => env.output@,
                    Platform::Linux => env.output@ + "/"@ + env.name@,
                    Platform::Macos => env.executable@,
                    Platform::Windows => env.executable@,
                }
                &&& action.lldb_server == match env.device_platform {
                    Platform::Android => Some(env.lldb_server),
                    _ => None::<String>,
                }
            },
            Err(e) => !env.has_device && e == CommandError::NoDevice,
        },
{
    if !env.has_device {
        return Err(CommandError::NoDevice);
    }
    let mut cargo_dir = env.build_dir.clone();
    cargo_dir.append("/");
    let opt = opt_name(env.opt);
    cargo_dir.append(opt.as_str());
    cargo_dir.append("/");
    let platform = platform_name(env.device_platform);
    cargo_dir.append(platform.as_str());
    cargo_dir.append("/");
    cargo_dir.append(env.device_arch.as_str());
    cargo_dir.append("/cargo");
    let executable = match env.device_platform {
        Platform::Android => env.cargo_artefact.clone(),
        Platform::Ios => env.output.clone(),
        Platform::Linux => {
            let mut path = env.output.clone();
            path.append("/");
            path.append(env.name.as_str());
            path
        },
        Platform::Macos => env.executable.clone(),
        Platform::Windows => env.executable.clone(),
    };
    let lldb_server = match env.device_platform {
        Platform::Android => Some(env.lldb_server.clone()),
        _ => None,
    };
    Ok(LldbAction { cargo_dir, executable, lldb_server })
}

} // verus!
