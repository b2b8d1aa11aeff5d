//! Tests of the smaller helpers: log formatting, the bounded panel log,
//! the build-tool command cores, the setup planning and the guest
//! command line.

use localdesktop::command::{lldb, run, BuildEnv, CommandError, Opt, Platform};
use localdesktop::logging::{
    log_format, PolarBearExpectation, PolarBearLogging, MAX_PANEL_LOG_ENTRIES,
};
use localdesktop::seat::{Seat, SeatEvent, SeatState};
use localdesktop::setup::{
    plan_setup, proot_args, webview_connection_decision, ConnectionDecision, SetupMessage,
    SetupOptions, SetupProbe, SetupStage, WebviewBackend,
};
use localdesktop::xkb::{KeyMapping, KeymapModel, LayoutDef, LedDefs};

#[test]
fn log_format_frames_the_message_with_banners() {
    let formatted = log_format("SETUP", "hello");
    assert_eq!(
        formatted,
        "\n*** *** *** [SETUP] *** *** ***\nhello\n*** *** *** [SETUP] *** *** ***\n\n"
    );
}

#[test]
fn panel_log_retains_only_the_most_recent_entries() {
    let mut logging = PolarBearLogging::new();
    for i in 0..(MAX_PANEL_LOG_ENTRIES + 10) {
        logging.log(format!("entry {}", i));
    }
    assert_eq!(logging.logs.len(), MAX_PANEL_LOG_ENTRIES);
    assert_eq!(logging.logs[0], "entry 10", "the oldest entries fall out");
    assert_eq!(logging.logs.last().unwrap(), &format!("entry {}", MAX_PANEL_LOG_ENTRIES + 9));
}

fn env_with_device(platform: Platform) -> BuildEnv {
    BuildEnv {
        has_device: true,
        device_platform: platform,
        device_arch: "arm64".to_string(),
        opt: Opt::Debug,
        build_dir: "target/x".to_string(),
        executable: "target/x/app".to_string(),
        output: "target/x/out".to_string(),
        name: "localdesktop".to_string(),
        cargo_artefact: "target/x/lib.so".to_string(),
        lldb_server: "target/x/lldb-server".to_string(),
    }
}

#[test]
fn run_needs_a_device() {
    let mut env = env_with_device(Platform::Android);
    let action = run(&env).expect("a device is attached");
    assert_eq!(action.executable, "target/x/app");
    env.has_device = false;
    assert_eq!(run(&env).unwrap_err(), CommandError::NoDevice);
}

#[test]
fn lldb_picks_the_artefact_by_platform() {
    let env = env_with_device(Platform::Android);
    let action = lldb(&env).unwrap();
    assert_eq!(action.cargo_dir, "target/x/debug/android/arm64/cargo");
    assert_eq!(action.executable, "target/x/lib.so");
    assert_eq!(action.lldb_server.as_deref(), Some("target/x/lldb-server"));

    let linux = env_with_device(Platform::Linux);
    let action = lldb(&linux).unwrap();
    assert_eq!(action.executable, "target/x/out/localdesktop");
    assert_eq!(action.lldb_server, None);

    let mut no_device = env_with_device(Platform::Macos);
    no_device.has_device = false;
    assert_eq!(lldb(&no_device).unwrap_err(), CommandError::NoDevice);
}

#[test]
fn setup_plans_only_the_missing_stages_in_order() {
    let all = plan_setup(SetupProbe {
        fake_sysdata_present: false,
        rootfs_present: false,
        dependencies_installed: false,
    });
    assert_eq!(
        all,
        vec![SetupStage::FakeSysdata, SetupStage::ExtractRootfs, SetupStage::InstallDependencies]
    );
    let some = plan_setup(SetupProbe {
        fake_sysdata_present: true,
        rootfs_present: false,
        dependencies_installed: true,
    });
    assert_eq!(some, vec![SetupStage::ExtractRootfs]);
    let none = plan_setup(SetupProbe {
        fake_sysdata_present: true,
        rootfs_present: true,
        dependencies_installed: true,
    });
    assert!(none.is_empty());
}

#[test]
fn guest_command_runs_as_root_through_a_plain_shell() {
    let args = proot_args("/data/arch", "echo hello", "root");
    assert_eq!(args[0], "-r");
    assert_eq!(args[1], "/data/arch");
    assert_eq!(args[16], "sh");
    assert_eq!(args[args.len() - 2], "-c");
    assert_eq!(args.last().unwrap(), "echo hello");
    assert_eq!(args.len(), 19);
}

#[test]
fn guest_command_switches_to_other_users() {
    let args = proot_args("/data/arch", "uname -a", "teddy");
    assert_eq!(&args[16..19], &["su", "-", "teddy"]);
    assert_eq!(args.last().unwrap(), "uname -a");
    assert_eq!(args.len(), 21);
}

#[test]
fn setup_types_carry_their_values() {
    let options = SetupOptions {
        username: "teddy".to_string(),
        checking_command: "pacman -Q xorg-xwayland".to_string(),
        install_packages: "xorg-xwayland xfce4".to_string(),
    };
    assert_eq!(options.username, "teddy");
    let message = SetupMessage::Progress("Installing...".to_string());
    assert_eq!(message, SetupMessage::Progress("Installing...".to_string()));
    assert_ne!(message, SetupMessage::Error("Installing...".to_string()));
}

fn tiny_keymap() -> KeymapModel {
    KeymapModel {
        layouts: vec![LayoutDef { name: "us".to_string(), keys: vec![KeyMapping {
            keycode: 30,
            levels: vec![vec![0x61]],
        }] }],
        leds: LedDefs { num: None, caps: None, scroll: None },
        text: String::new(),
    }
}

#[test]
fn adding_a_keyboard_twice_notifies_capability_changes() {
    let mut seat = Seat {
        id: 0,
        name: "seat-0".to_string(),
        keyboard: None,
        events: Vec::new(),
    };
    seat.add_keyboard(tiny_keymap(), 1000, 200);
    assert_eq!(seat.events, vec![SeatEvent::CapabilitiesChanged]);
    seat.add_keyboard(tiny_keymap(), 1000, 200);
    assert_eq!(
        seat.events.len(),
        3,
        "replacing a keyboard notifies the removal and the addition"
    );
    seat.remove_keyboard();
    assert!(seat.keyboard.is_none());
    assert_eq!(seat.events.len(), 4);
    seat.remove_keyboard();
    assert_eq!(seat.events.len(), 4, "removing an absent keyboard is silent");
}

#[test]
fn seats_are_equal_by_identity_not_by_name() {
    let mut seats = SeatState::new();
    let a = seats.new_seat("shared-name".to_string());
    let b = seats.new_seat("shared-name".to_string());
    assert_ne!(a, b);
    assert!(seats.seats[0].same_seat(&seats.seats[0]));
    assert!(!seats.seats[0].same_seat(&seats.seats[1]));
    assert_eq!(seats.seats[0].name(), seats.seats[1].name());
}

fn fwd_filter(
    _mods: localdesktop::xkb::ModifiersState,
    _sym: u32,
    _kc: u32,
) -> localdesktop::keyboard::FilterResult<()> {
    localdesktop::keyboard::FilterResult::Forward
}

#[test]
fn compiling_the_us_layout_resolves_letters_through_the_real_compiler() {
    let config = localdesktop::xkb::XkbConfig {
        rules: "evdev".to_string(),
        model: "pc105".to_string(),
        layout: "us".to_string(),
        variant: String::new(),
        options: None,
    };
    let keymap = match config.compile_keymap() {
        Ok(km) => km,
        Err(_) => {
            panic!("the keymap compiler could not load the us layout");
        }
    };
    assert!(!keymap.text.is_empty(), "a compiled keymap must serialize");
    assert!(!keymap.layouts.is_empty());
    let mut kb = localdesktop::keyboard::KeyboardHandle::new_from_keymap(keymap, 1000, 200);
    let mut serials = localdesktop::serial::SerialCounter::new();
    // Key codes follow the X convention: the evdev scan code plus eight.
    let s = serials.next_serial();
    kb.input::<(), _>(38, localdesktop::keyboard::KeyState::Pressed, s, 1, fwd_filter);
    assert_eq!(kb.keysym_handle(38).modified_sym(), 0x61, "scan code 30 carries the letter 'a'");
    let s2 = serials.next_serial();
    kb.input::<(), _>(50, localdesktop::keyboard::KeyState::Pressed, s2, 2, fwd_filter);
    assert_eq!(kb.keysym_handle(38).modified_sym(), 0x41, "held shift gives the letter 'A'");

    // The serialized form feeds back into the compiler as the same
    // keymap; the held keys survive the live swap.
    let text = kb.keymap_file.keymap.clone();
    let id_before = kb.keymap_file.id;
    kb.set_keymap_from_string(&mut serials, &text)
        .expect("the serialized keymap must compile again");
    assert!(kb.keymap_file.id > id_before);
    let mut held = kb.pressed_keys();
    held.sort();
    assert_eq!(held, vec![38, 50], "held keys survive the keymap replacement");
    assert_eq!(kb.keysym_handle(38).modified_sym(), 0x41, "shift is still effective after the swap");
}

#[test]
fn progress_endpoint_accepts_one_speaking_client_at_a_time() {
    assert_eq!(webview_connection_decision(true, true), ConnectionDecision::RejectBusy);
    assert_eq!(webview_connection_decision(false, false), ConnectionDecision::RejectProtocol);
    assert_eq!(webview_connection_decision(false, true), ConnectionDecision::Accept);
    let mut backend = WebviewBackend::new(8444);
    backend.set_progress(55);
    assert_eq!(backend.progress, 55);
    backend.set_progress(250);
    assert_eq!(backend.progress, 100, "progress saturates at one hundred percent");
}

#[test]
fn expectation_takes_the_value_that_is_there() {
    let ok: Result<u32, u32> = Ok(5);
    assert_eq!(ok.pb_expect("a value is there"), 5);
    let some: Option<&str> = Some("x");
    assert_eq!(some.pb_expect("a value is there"), "x");
}
