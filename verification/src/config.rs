//! The local configuration: the user and command settings, their
//! defaults, and the processing of the configuration file's lines. A
//! `try_` prefixed key overrides its plain key for one run and is
//! commented out in the text written back; among plain keys the first
//! entry wins.

use vstd::prelude::*;
use crate::textutil::{
    concat_bytes, find_byte, prefix_bytes, spec_find_byte, spec_starts_with, spec_trim,
    starts_with, suffix_bytes, trim_bytes,
};

verus! {

/// The user settings.
#[derive(Debug, Clone)]
pub struct UserConfig {
    /// The name of the user the guest commands run as.
    pub username: String,
}

impl Default for UserConfig {
    /// The root user.
    fn default() -> (r: UserConfig)
        ensures
            r.username@ == "root"@,
    {
        UserConfig { username: String::from_str("root") }
    }
}

/// The default command that checks whether the guest packages are
/// installed.
pub fn default_check() -> (r: String)
    ensures
        r@ == "pacman -Q xorg-xwayland && pacman -Qg xfce4 && pacman -Q onboard"@,
{
    String::from_str("pacman -Q xorg-xwayland && pacman -Qg xfce4 && pacman -Q onboard")
}

/// The default command that installs the guest packages.
pub fn default_install() -> (r: String)
    ensures
        r@ == "stdbuf -oL pacman -Syu xorg-xwayland xfce4 onboard --noconfirm --noprogressbar"@,
{
    String::from_str(
        "stdbuf -oL pacman -Syu xorg-xwayland xfce4 onboard --noconfirm --noprogressbar",
    )
}

/// The default command that launches the guest desktop.
pub fn default_launch() -> (r: String)
    ensures
        r@
            == "XDG_RUNTIME_DIR=/tmp Xwayland -hidpi :1 2>&1 & while [ ! -e /tmp/.X11-unix/X1 ]; do sleep 0.1; done; XDG_SESSION_TYPE=x11 DISPLAY=:1 dbus-launch startxfce4 2>&1"@,
{
    String::from_str(
        "XDG_RUNTIME_DIR=/tmp Xwayland -hidpi :1 2>&1 & while [ ! -e /tmp/.X11-unix/X1 ]; do sleep 0.1; done; XDG_SESSION_TYPE=x11 DISPLAY=:1 dbus-launch startxfce4 2>&1",
    )
}

/// The command settings.
#[derive(Debug, Clone)]
pub struct CommandConfig {
    /// Checks whether the guest packages are installed.
    pub check: String,
    /// Installs the guest packages.
    pub install: String,
    /// Launches the guest desktop.
    pub launch: String,
}

impl Default for CommandConfig {
    /// The default check, install and launch commands.
    fn default() -> (r: CommandConfig)
        ensures
            r.check@ == "pacman -Q xorg-xwayland && pacman -Qg xfce4 && pacman -Q onboard"@,
            r.install@
                == "stdbuf -oL pacman -Syu xorg-xwayland xfce4 onboard --noconfirm --noprogressbar"@,
            r.launch@
                == "XDG_RUNTIME_DIR=/tmp Xwayland -hidpi :1 2>&1 & while [ ! -e /tmp/.X11-unix/X1 ]; do sleep 0.1; done; XDG_SESSION_TYPE=x11 DISPLAY=:1 dbus-launch startxfce4 2>&1"@,
    {
        CommandConfig {
            check: default_check(),
            install: default_install(),
            launch: default_launch(),
        }
    }
}

/// The whole local configuration.
#[derive(Debug, Clone)]
pub struct LocalConfig {
    /// The user settings.
    pub user: UserConfig,
    /// The command settings.
    pub command: CommandConfig,
}

impl Default for LocalConfig {
    /// The default user and command settings.
    fn default() -> (r: LocalConfig)
        ensures
            r.user.username@ == "root"@,
            r.command.check@ == "pacman -Q xorg-xwayland && pacman -Qg xfce4 && pacman -Q onboard"@,
            r.command.install@
                == "stdbuf -oL pacman -Syu xorg-xwayland xfce4 onboard --noconfirm --noprogressbar"@,
            r.command.launch@
                == "XDG_RUNTIME_DIR=/tmp Xwayland -hidpi :1 2>&1 & while [ ! -e /tmp/.X11-unix/X1 ]; do sleep 0.1; done; XDG_SESSION_TYPE=x11 DISPLAY=:1 dbus-launch startxfce4 2>&1"@,
    {
        LocalConfig { user: UserConfig::default(), command: CommandConfig::default() }
    }
}

/// Assemble a configuration from the values a parsed file supplies: a
/// missing value falls back to its default, exactly.
pub fn apply_config_values(
    username: Option<String>,
    check: Option<String>,
    install: Option<String>,
    launch: Option<String>,
) -> (r: LocalConfig)
    ensures
        r.user.username@ == match username {
            Some(u) => u@,
            None => "root"@,
        },
        r.command.check@ == match check {
            Some(c) => c@,
            None => "pacman -Q xorg-xwayland && pacman -Qg xfce4 && pacman -Q onboard"@,
        },
        r.command.install@ == match install {
            Some(c) => c@,
            None =>
                "stdbuf -oL pacman -Syu xorg-xwayland xfce4 onboard --noconfirm --noprogressbar"@,
        },
        r.command.launch@ == match launch {
            Some(c) => c@,
            None =>
                "XDG_RUNTIME_DIR=/tmp Xwayland -hidpi :1 2>&1 & while [ ! -e /tmp/.X11-unix/X1 ]; do sleep 0.1; done; XDG_SESSION_TYPE=x11 DISPLAY=:1 dbus-launch startxfce4 2>&1"@,
        },
{
    let user = match username {
        Some(u) => UserConfig { username: u },
        None => UserConfig::default(),
    };
    let check_cmd = match check {
        Some(c) => c,
        None => default_check(),
    };
    let install_cmd = match install {
        Some(c) => c,
        None => default_install(),
    };
    let launch_cmd = match launch {
        Some(c) => c,
        None => default_launch(),
    };
    LocalConfig {
        user,
        command: CommandConfig { check: check_cmd, install: install_cmd, launch: launch_cmd },
    }
}

/// The `try_` prefix, as bytes.
pub open spec fn spec_try_prefix() -> Seq<u8> {
    seq![0x74u8, 0x72u8, 0x79u8, 0x5fu8]
}

/// A key with every leading `try_` removed.
pub open spec fn spec_strip_try(key: Seq<u8>) -> Seq<u8>
    decreases key.len(),
{
    if spec_starts_with(key, spec_try_prefix()) {
        spec_strip_try(key.skip(4))
    } else {
        key
    }
}

/// The first index of `eff` whose line starts with `prefix`, if any.
pub open spec fn spec_first_prefixed(eff: Seq<Seq<u8>>, prefix: Seq<u8>) -> Option<int>
    decreases eff.len(),
{
    if eff.len() == 0 {
        None
    } else if spec_starts_with(eff[0], prefix) {
        Some(0)
    } else {
        match spec_first_prefixed(eff.drop_first(), prefix) {
            Some(i) => Some(i + 1),
            None => None,
        }
    }
}

proof fn lemma_first_prefixed_skip(eff: Seq<Seq<u8>>, prefix: Seq<u8>, i: int)
    requires
        0 <= i <= eff.len(),
        forall|j: int| 0 <= j < i ==> !spec_starts_with(#[trigger] eff[j], prefix),
    ensures
        spec_first_prefixed(eff, prefix) == match spec_first_prefixed(eff.skip(i), prefix) {
            Some(k) => Some(k + i),
            None => None::<int>,
        },
    decreases i,
{
    if i > 0 {
        lemma_first_prefixed_skip(eff.drop_first(), prefix, i - 1);
        assert(eff.drop_first().skip(i - 1) =~= eff.skip(i));
    } else {
        assert(eff.skip(0) =~= eff);
    }
}

/// What processing one raw line does to the pair of the written-back
/// lines and the effective lines. A `try_` key is commented out in the
/// write-back and overrides or appends its plain key in the effective
/// lines; a plain key is kept as is and enters the effective lines only
/// when its key is not taken yet; a line without `=` passes through.
pub open spec fn spec_process_line(
    wb: Seq<Seq<u8>>,
    eff: Seq<Seq<u8>>,
    raw: Seq<u8>,
) -> (Seq<Seq<u8>>, Seq<Seq<u8>>) {
    let t = spec_trim(raw);
    match spec_find_byte(t, 0x3du8) {
        Some(e) => {
            let key = spec_trim(t.take(e));
            let value = spec_trim(t.skip(e + 1));
            if spec_starts_with(key, spec_try_prefix()) {
                let wb2 = wb.push(seq![0x23u8, 0x20u8] + t);
                let actual_key = spec_strip_try(key);
                let line = actual_key + seq![0x3du8] + value;
                match spec_first_prefixed(eff, actual_key + seq![0x3du8]) {
                    Some(i) => (wb2, eff.update(i, line)),
                    None => (wb2, eff.push(line)),
                }
            } else {
                let wb2 = wb.push(t);
                match spec_first_prefixed(eff, key + seq![0x3du8]) {
                    Some(i) => (wb2, eff),
                    None => (wb2, eff.push(key + seq![0x3du8] + value)),
                }
            }
        },
        None => (wb.push(t), eff.push(t)),
    }
}

/// The lines written back and the effective lines, after processing a
/// configuration file's lines in order.
pub open spec fn spec_process_lines(lines: Seq<Seq<u8>>) -> (Seq<Seq<u8>>, Seq<Seq<u8>>)
    decreases lines.len(),
{
    if lines.len() == 0 {
        (Seq::empty(), Seq::empty())
    } else {
        let prev = spec_process_lines(lines.drop_last());
        spec_process_line(prev.0, prev.1, lines.last())
    }
}

/// The result of processing a configuration file's lines: what to write
/// back, and the effective configuration.
#[derive(Debug)]
pub struct ProcessedConfig {
    /// The lines to write back, with applied `try_` lines commented out.
    pub write_back: Vec<Vec<u8>>,
    /// The effective configuration lines, with `try_` overrides applied.
    pub effective: Vec<Vec<u8>>,
}

/// A key with every leading `try_` removed.
fn strip_try(key: Vec<u8>) -> (r: Vec<u8>)
    ensures
        r@ == spec_strip_try(key@),
    decreases key@.len(),
{
    let mut prefix: Vec<u8> = Vec::new();
    prefix.push(0x74);
    prefix.push(0x72);
    prefix.push(0x79);
    prefix.push(0x5f);
    proof {
        assert(prefix@ =~= spec_try_prefix());
    }
    let mut k = key;
    while starts_with(&k, &prefix)
        invariant
            prefix@ == spec_try_prefix(),
            spec_strip_try(k@) == spec_strip_try(key@),
        decreases k@.len(),
    {
        let rest = suffix_bytes(&k, 4);
        proof {
            assert(rest@.len() < k@.len());
        }
        k = rest;
    }
    k
}

/// The first index of `eff` whose line starts with `prefix`, if any.
fn first_prefixed(eff: &Vec<Vec<u8>>, prefix: &Vec<u8>) -> (r: Option<usize>)
    ensures
        match r {
            Some(i) => i < eff@.len() && spec_first_prefixed(eff.deep_view(), prefix@) == Some(
                i as int,
            ),
            None => spec_first_prefixed(eff.deep_view(), prefix@) is None,
        },
{
    let ghost effv = eff.deep_view();
    proof {
        assert(effv.len() == eff@.len());
    }
    let mut i: usize = 0;
    while i < eff.len()
        invariant
            effv == eff.deep_view(),
            effv.len() == eff@.len(),
            i <= eff@.len(),
            forall|j: int| 0 <= j < i ==> !spec_starts_with(#[trigger] effv[j], prefix@),
            forall|j: int| 0 <= j < effv.len() ==> #[trigger] effv[j] == eff@[j]@,
        decreases eff@.len() - i,
    {
        if starts_with(&eff[i], prefix) {
            proof {
                lemma_first_prefixed_skip(effv, prefix@, i as int);
                assert(effv.skip(i as int)[0] == effv[i as int]);
            }
            return Some(i);
        }
        i = i + 1;
    }
    proof {
        lemma_first_prefixed_skip(effv, prefix@, effv.len() as int);
        assert(effv.skip(effv.len() as int).len() == 0);
    }
    None
}

/// Process a configuration file's lines: comment out each applied `try_`
/// line in the write-back text, and compute the effective configuration
/// with the `try_` overrides applied — the first plain entry of a key
/// wins, and a `try_` entry overrides it.
pub fn process_config_lines(lines: &Vec<Vec<u8>>) -> (r: ProcessedConfig)
    ensures
        (r.write_back.deep_view(), r.effective.deep_view()) == spec_process_lines(
            lines.deep_view(),
        ),
{
    let ghost linesv = lines.deep_view();
    let mut write_back: Vec<Vec<u8>> = Vec::new();
    let mut effective: Vec<Vec<u8>> = Vec::new();
    let mut i: usize = 0;
    proof {
        assert(linesv.take(0).len() == 0);
        assert(write_back.deep_view() =~= Seq::<Seq<u8>>::empty());
        assert(effective.deep_view() =~= Seq::<Seq<u8>>::empty());
        assert forall|j: int| 0 <= j < linesv.len() implies #[trigger] linesv[j]
            == lines@[j]@ by {
            assert(lines@[j].deep_view() =~= lines@[j]@);
        };
    }
    while i < lines.len()
        invariant
            linesv == lines.deep_view(),
            linesv.len() == lines@.len(),
            i <= lines@.len(),
            (write_back.deep_view(), effective.deep_view()) == spec_process_lines(
                linesv.take(i as int)),
            forall|j: int| 0 <= j < linesv.len() ==> #[trigger] linesv[j] == lines@[j]@,
        decreases lines@.len() - i,
    {
        let ghost wb0 = write_back.deep_view();
        let ghost eff0 = effective.deep_view();
        let ghost wbv0 = write_back@;
        let ghost effv0 = effective@;
        proof {
            assert forall|j: int| 0 <= j < wb0.len() implies #[trigger] wb0[j] == wbv0[j]@ by {
                assert(wbv0[j].deep_view() =~= wbv0[j]@);
            };
            assert forall|j: int| 0 <= j < eff0.len() implies #[trigger] eff0[j] == effv0[j]@ by {
                assert(effv0[j].deep_view() =~= effv0[j]@);
            };
        }
        let line = &lines[i];
        let trimmed = trim_bytes(line);
        let tl = trimmed.len();
        match find_byte(&trimmed, 0x3d) {
            Some(e) => {
                proof {
                    assert(spec_find_byte(trimmed@, 0x3du8) == Some(e as int)) by {
                        assert(trimmed@[e as int] == 0x3du8);
                        let w = choose|k: int|
                            0 <= k < trimmed@.len() && trimmed@[k] == 0x3du8 && forall|j: int|
                                0 <= j < k ==> trimmed@[j] != 0x3du8;
                        assert(trimmed@[w] == 0x3du8);
                    };
                }
                let key_part = prefix_bytes(&trimmed, e);
                let value_part = suffix_bytes(&trimmed, e + 1);
                let key = trim_bytes(&key_part);
                let value = trim_bytes(&value_part);
                let mut try_prefix: Vec<u8> = Vec::new();
                try_prefix.push(0x74);
                try_prefix.push(0x72);
                try_prefix.push(0x79);
                try_prefix.push(0x5f);
                proof {
                    assert(try_prefix@ =~= spec_try_prefix());
                }
                let mut eq: Vec<u8> = Vec::new();
                eq.push(0x3d);
                proof {
                    assert(eq@ =~= seq![0x3du8]);
                }
                if starts_with(&key, &try_prefix) {
                    let mut hash_space: Vec<u8> = Vec::new();
                    hash_space.push(0x23);
                    hash_space.push(0x20);
                    let commented = concat_bytes(&hash_space, &trimmed);
                    proof {
                        assert(commented@ =~= seq![0x23u8, 0x20u8] + trimmed@);
                    }
                    write_back.push(commented);
                    let actual_key = strip_try(key);
                    let key_eq = concat_bytes(&actual_key, &eq);
                    let line_out = concat_bytes(&key_eq, &value);
                    proof {
                        assert(line_out@ =~= spec_strip_try(spec_trim(trimmed@.take(e as int)))
                            + seq![0x3du8] + spec_trim(trimmed@.skip(e + 1)));
                    }
                    match first_prefixed(&effective, &key_eq) {
                        Some(idx) => {
                            effective.set(idx, line_out);
                        },
                        None => {
                            effective.push(line_out);
                        },
                    }
                } else {
                    write_back.push(trimmed);
                    let key_eq = concat_bytes(&key, &eq);
                    match first_prefixed(&effective, &key_eq) {
                        Some(_idx) => {},
                        None => {
                            let line_out = concat_bytes(&key_eq, &value);
                            proof {
                                assert(line_out@ =~= spec_trim(trimmed@.take(e as int))
                                    + seq![0x3du8] + spec_trim(trimmed@.skip(e + 1)));
                            }
                            effective.push(line_out);
                        },
                    }
                }
            },
            None => {
                proof {
                    assert(spec_find_byte(trimmed@, 0x3du8) is None);
                }
                write_back.push(trimmed.clone());
                effective.push(trimmed);
            },
        }
        proof {
            assert(linesv.take(i + 1).drop_last() =~= linesv.take(i as int));
            assert(linesv.take(i + 1).last() == linesv[i as int]);
            let stepped = spec_process_line(wb0, eff0, linesv[i as int]);
            let wb1 = write_back.deep_view();
            let eff1 = effective.deep_view();
            assert forall|j: int| 0 <= j < wb1.len() implies #[trigger] wb1[j]
                == write_back@[j]@ by {
                assert(write_back@[j].deep_view() =~= write_back@[j]@);
            };
            assert forall|j: int| 0 <= j < eff1.len() implies #[trigger] eff1[j]
                == effective@[j]@ by {
                assert(effective@[j].deep_view() =~= effective@[j]@);
            };
            assert(wb1 =~= stepped.0);
            assert(eff1 =~= stepped.1);
        }
        i = i + 1;
    }
    proof {
        assert(linesv.take(linesv.len() as int) =~= linesv);
    }
    ProcessedConfig { write_back, effective }
}

} // verus!
