//! Tests of the keyboard state machine: symbol resolution, focus
//! transfer ordering, keymap replacement, grabs and serials.

use localdesktop::keyboard::{
    FilterResult, KeyState, KeyboardError, KeyboardEvent, KeyboardHandle,
};
use localdesktop::serial::{Serial, SerialCounter};
use localdesktop::xkb::{
    KeyMapping, KeymapModel, LayoutDef, LedDefs, MOD_MASK_LOCK, MOD_MASK_SHIFT,
};

fn sample_keymap() -> KeymapModel {
    KeymapModel {
        layouts: vec![LayoutDef {
            name: "us".to_string(),
            keys: vec![
                // The letter key: level zero is 'a', level one is 'A'.
                KeyMapping {
                    keycode: 30,
                    levels: vec![vec![0x61], vec![0x41]],
                },
                // The left shift key.
                KeyMapping {
                    keycode: 42,
                    levels: vec![vec![0xffe1]],
                },
                // The caps lock key.
                KeyMapping {
                    keycode: 58,
                    levels: vec![vec![0xffe5]],
                },
            ],
        }],
        leds: LedDefs {
            num: None,
            caps: Some(MOD_MASK_LOCK),
            scroll: None,
        },
        text: "sample keymap text".to_string(),
    }
}

fn forward(_mods: localdesktop::xkb::ModifiersState, _sym: u32, _kc: u32) -> FilterResult<()> {
    FilterResult::Forward
}

#[test]
fn keydown_resolves_lowercase_then_shifted_uppercase() {
    let mut kb = KeyboardHandle::new_from_keymap(sample_keymap(), 1000, 200);
    let mut serials = SerialCounter::new();
    let s = serials.next_serial();
    kb.input::<(), _>(30, KeyState::Pressed, s, 5, forward);
    assert_eq!(kb.keysym_handle(30).modified_sym(), 0x61, "plain key-down must resolve to 'a'");
    let s2 = serials.next_serial();
    kb.input::<(), _>(42, KeyState::Pressed, s2, 6, forward);
    assert!(kb.modifier_state().shift);
    assert_eq!(kb.keysym_handle(30).modified_sym(), 0x41, "shifted key must resolve to 'A'");
}

#[test]
fn caps_lock_swaps_letter_case_and_drives_led() {
    let mut kb = KeyboardHandle::new_from_keymap(sample_keymap(), 1000, 200);
    let mut serials = SerialCounter::new();
    let s = serials.next_serial();
    kb.input::<(), _>(58, KeyState::Pressed, s, 1, forward);
    assert!(kb.modifier_state().caps_lock);
    assert_eq!(kb.led_state().caps, Some(true));
    assert_eq!(kb.keysym_handle(30).modified_sym(), 0x41);
    // Caps lock together with shift gives the lower-case letter again.
    let s2 = serials.next_serial();
    kb.input::<(), _>(42, KeyState::Pressed, s2, 2, forward);
    assert_eq!(kb.keysym_handle(30).modified_sym(), 0x61);
}

#[test]
fn focus_change_orders_leave_enter_modifiers() {
    let mut kb = KeyboardHandle::new_from_keymap(sample_keymap(), 1000, 200);
    let mut serials = SerialCounter::new();
    let s1 = serials.next_serial();
    kb.set_focus(Some(1), s1);
    let held = serials.next_serial();
    kb.input::<(), _>(30, KeyState::Pressed, held, 3, forward);
    kb.events = Vec::new();
    let s2 = serials.next_serial();
    kb.set_focus(Some(2), s2);
    let mods = kb.modifier_state();
    assert_eq!(
        kb.events,
        vec![
            KeyboardEvent::Leave { target: 1, serial: s2 },
            KeyboardEvent::Enter { target: 2, serial: s2, keys: vec![30] },
            KeyboardEvent::Modifiers { target: 2, mods, serial: s2 },
        ],
        "focus transfer must record leave, enter, modifiers in that order"
    );
}

#[test]
fn focus_set_twice_produces_no_traffic() {
    let mut kb = KeyboardHandle::new_from_keymap(sample_keymap(), 1000, 200);
    let mut serials = SerialCounter::new();
    let s1 = serials.next_serial();
    kb.set_focus(Some(7), s1);
    let events_after_first = kb.events.len();
    let s2 = serials.next_serial();
    kb.set_focus(Some(7), s2);
    assert_eq!(kb.events.len(), events_after_first, "second set_focus with the same target must be silent");
    assert_eq!(kb.current_focus(), Some(7));
}

#[test]
fn unset_focus_sends_only_leave() {
    let mut kb = KeyboardHandle::new_from_keymap(sample_keymap(), 1000, 200);
    let mut serials = SerialCounter::new();
    let s1 = serials.next_serial();
    kb.set_focus(Some(9), s1);
    kb.events = Vec::new();
    let s2 = serials.next_serial();
    kb.set_focus(None, s2);
    assert_eq!(kb.events, vec![KeyboardEvent::Leave { target: 9, serial: s2 }]);
    assert_eq!(kb.current_focus(), None);
    assert_eq!(kb.last_enter(), None);
}

#[test]
fn forwarded_keys_stay_subset_of_pressed() {
    let mut kb = KeyboardHandle::new_from_keymap(sample_keymap(), 1000, 200);
    let mut serials = SerialCounter::new();
    kb.set_focus(Some(1), serials.next_serial());
    let codes = [30u32, 42, 58, 30, 42, 30, 58];
    let states = [
        KeyState::Pressed,
        KeyState::Pressed,
        KeyState::Pressed,
        KeyState::Released,
        KeyState::Released,
        KeyState::Pressed,
        KeyState::Released,
    ];
    for i in 0..codes.len() {
        let s = serials.next_serial();
        kb.input::<(), _>(codes[i], states[i], s, i as u32, forward);
        let pressed = kb.pressed_keys();
        for k in kb.internal.forwarded_pressed_keys.to_vec() {
            assert!(pressed.contains(&k), "forwarded key {} must still be pressed", k);
        }
    }
}

#[test]
fn intercepted_key_is_swallowed_and_returned() {
    let mut kb = KeyboardHandle::new_from_keymap(sample_keymap(), 1000, 200);
    let mut serials = SerialCounter::new();
    kb.set_focus(Some(1), serials.next_serial());
    kb.events = Vec::new();
    let s = serials.next_serial();
    let got = kb.input::<u32, _>(30, KeyState::Pressed, s, 4, |_mods, sym, _kc| {
        FilterResult::Intercept(sym)
    });
    assert_eq!(got, Some(0x61), "the intercepted value must be handed back");
    assert!(
        kb.events.iter().all(|e| !matches!(e, KeyboardEvent::Key { .. })),
        "an intercepted keystroke must not reach the client"
    );
    assert!(kb.pressed_keys().contains(&30));
    assert!(!kb.internal.forwarded_pressed_keys.to_vec().contains(&30));
}

#[test]
fn keymap_replace_preserves_pressed_keys_and_recomputes_modifiers() {
    let mut kb = KeyboardHandle::new_from_keymap(sample_keymap(), 1000, 200);
    let mut serials = SerialCounter::new();
    kb.input::<(), _>(30, KeyState::Pressed, serials.next_serial(), 1, forward);
    kb.input::<(), _>(42, KeyState::Pressed, serials.next_serial(), 2, forward);
    assert!(kb.modifier_state().shift);
    // The replacement maps the same shift key, so the replay must
    // reproduce the modifier state from the held keys.
    let mut replacement = sample_keymap();
    replacement.text = "replacement keymap text".to_string();
    kb.set_keymap(&mut serials, replacement);
    let mut pressed = kb.pressed_keys();
    pressed.sort();
    assert_eq!(pressed, vec![30, 42], "held keys must survive the keymap replacement");
    assert!(kb.modifier_state().shift, "modifier flags must be recomputed from the held keys");
    assert_eq!(kb.modifier_state().serialized.depressed, MOD_MASK_SHIFT);
    assert_eq!(kb.keymap_file.keymap, "replacement keymap text");
}

#[test]
fn keymap_replace_pushes_same_version_to_every_client() {
    let mut kb = KeyboardHandle::new_from_keymap(sample_keymap(), 1000, 200);
    let mut serials = SerialCounter::new();
    kb.register_kbd(101, 7);
    kb.register_kbd(202, 7);
    kb.events = Vec::new();
    let mut replacement = sample_keymap();
    replacement.text = "second version".to_string();
    kb.set_keymap(&mut serials, replacement);
    let pushed: Vec<(u64, u64)> = kb
        .events
        .iter()
        .filter_map(|e| match e {
            KeyboardEvent::KeymapSent { kbd, keymap_id } => Some((*kbd, *keymap_id)),
            _ => None,
        })
        .collect();
    assert_eq!(pushed.len(), 2, "both clients must receive the keymap");
    assert_eq!(pushed[0].0, 101);
    assert_eq!(pushed[1].0, 202);
    assert_eq!(pushed[0].1, pushed[1].1, "both clients must see the same final version");
    assert_eq!(pushed[0].1, kb.keymap_file.id);
}

#[test]
fn dead_client_receives_no_keymap() {
    let mut kb = KeyboardHandle::new_from_keymap(sample_keymap(), 1000, 200);
    let mut serials = SerialCounter::new();
    kb.register_kbd(1, 7);
    kb.register_kbd(2, 7);
    kb.known_kbds[0].alive = false;
    kb.events = Vec::new();
    kb.set_keymap(&mut serials, sample_keymap());
    let pushed: Vec<u64> = kb
        .events
        .iter()
        .filter_map(|e| match e {
            KeyboardEvent::KeymapSent { kbd, .. } => Some(*kbd),
            _ => None,
        })
        .collect();
    assert_eq!(pushed, vec![2]);
}

#[test]
fn grab_with_older_serial_never_displaces_newer_grab() {
    let mut kb = KeyboardHandle::new_from_keymap(sample_keymap(), 1000, 200);
    let mut serials = SerialCounter::new();
    let early = serials.next_serial();
    let late = serials.next_serial();
    assert!(early.is_older_than(&late), "serials minted later must compare greater");
    assert!(kb.set_grab(late));
    assert!(kb.has_grab(late));
    assert!(!kb.set_grab(early), "an older serial must not displace the grab");
    assert!(kb.has_grab(late));
    assert!(kb.is_grabbed());
    kb.unset_grab();
    assert!(!kb.is_grabbed());
    assert_eq!(kb.grab_start_data(), None);
}

#[test]
fn repeat_info_reaches_only_recent_clients() {
    let mut kb = KeyboardHandle::new_from_keymap(sample_keymap(), 1000, 200);
    kb.register_kbd(1, 3);
    kb.register_kbd(2, 4);
    kb.change_repeat_info(25, 600);
    let infos: Vec<(u64, i32, i32)> = kb
        .events
        .iter()
        .filter_map(|e| match e {
            KeyboardEvent::RepeatInfo { kbd, rate, delay } => Some((*kbd, *rate, *delay)),
            _ => None,
        })
        .collect();
    assert_eq!(infos, vec![(2, 25, 600)], "only protocol version four and later carries repeat info");
    assert_eq!(kb.internal.repeat_rate, 25);
    assert_eq!(kb.internal.repeat_delay, 600);
}

#[test]
fn layout_cycling_wraps_and_tolerates_single_layout() {
    let mut two_layouts = sample_keymap();
    two_layouts.layouts.push(LayoutDef {
        name: "alt".to_string(),
        keys: vec![KeyMapping {
            keycode: 30,
            levels: vec![vec![0x01000431]],
        }],
    });
    let mut kb = KeyboardHandle::new_from_keymap(two_layouts, 1000, 200);
    let mut serials = SerialCounter::new();
    assert_eq!(kb.internal.xkb.state.active_layout().0, 0);
    kb.cycle_next_layout(&mut serials);
    assert_eq!(kb.internal.xkb.state.active_layout().0, 1);
    kb.cycle_next_layout(&mut serials);
    assert_eq!(kb.internal.xkb.state.active_layout().0, 0, "cycling wraps at the end");
    kb.cycle_prev_layout(&mut serials);
    assert_eq!(kb.internal.xkb.state.active_layout().0, 1, "cycling backward wraps at the start");

    let mut single = KeyboardHandle::new_from_keymap(sample_keymap(), 1000, 200);
    single.cycle_next_layout(&mut serials);
    assert_eq!(single.internal.xkb.state.active_layout().0, 0, "one layout cycles to itself");
}

#[test]
fn raw_latin_sym_falls_back_across_layouts() {
    let mut two_layouts = KeymapModel {
        layouts: vec![
            LayoutDef {
                name: "ru".to_string(),
                keys: vec![KeyMapping {
                    // Cyrillic small letter ef, carried as a direct-unicode keysym.
                    keycode: 33,
                    levels: vec![vec![0x01000444]],
                }],
            },
            LayoutDef {
                name: "us".to_string(),
                keys: vec![KeyMapping {
                    keycode: 33,
                    levels: vec![vec![0x61]],
                }],
            },
        ],
        leds: LedDefs { num: None, caps: None, scroll: None },
        text: String::new(),
    };
    let kb = KeyboardHandle::new_from_keymap(two_layouts, 1000, 200);
    assert_eq!(
        kb.keysym_handle(33).raw_latin_sym_or_raw_current_sym(),
        Some(0x61),
        "a non-latin base symbol must fall back to the latin layout's symbol"
    );
    assert_eq!(kb.keysym_handle(30).raw_latin_sym_or_raw_current_sym(), None);
}

#[test]
fn bad_keymap_text_is_rejected_and_state_unchanged() {
    let mut kb = KeyboardHandle::new_from_keymap(sample_keymap(), 1000, 200);
    let mut serials = SerialCounter::new();
    kb.input::<(), _>(30, KeyState::Pressed, serials.next_serial(), 1, forward);
    let id_before = kb.keymap_file.id;
    let events_before = kb.events.len();
    let got = kb.set_keymap_from_string(&mut serials, "this is not a keymap");
    assert_eq!(got, Err(KeyboardError::BadKeymap));
    assert_eq!(kb.keymap_file.id, id_before, "a failed compile must leave the keymap authoritative");
    assert_eq!(kb.events.len(), events_before);
    assert_eq!(kb.pressed_keys(), vec![30]);
}

#[test]
fn serials_mint_strictly_increasing() {
    let mut serials = SerialCounter::new();
    let mut previous: Option<Serial> = None;
    for _ in 0..100 {
        let s = serials.next_serial();
        if let Some(p) = previous {
            assert!(p.is_older_than(&s));
            assert!(!s.is_older_than(&p));
        }
        previous = Some(s);
    }
}

#[test]
fn registration_pushes_the_current_keymap_at_once() {
    let mut kb = KeyboardHandle::new_from_keymap(sample_keymap(), 1000, 200);
    let mut serials = SerialCounter::new();
    let mut replacement = sample_keymap();
    replacement.text = "second version".to_string();
    kb.set_keymap(&mut serials, replacement);
    let current = kb.keymap_file.id;
    kb.events = Vec::new();
    kb.register_kbd(77, 7);
    assert_eq!(
        kb.events,
        vec![KeyboardEvent::KeymapSent { kbd: 77, keymap_id: current }],
        "a keyboard object registered after a replace still receives the final version"
    );
    assert_eq!(kb.known_kbds.last().unwrap().last_keymap, current);
}

#[test]
fn swallowed_release_still_leaves_the_forwarded_set() {
    let mut kb = KeyboardHandle::new_from_keymap(sample_keymap(), 1000, 200);
    let mut serials = SerialCounter::new();
    kb.set_focus(Some(1), serials.next_serial());
    let s1 = serials.next_serial();
    kb.input::<(), _>(30, KeyState::Pressed, s1, 1, forward);
    assert!(kb.internal.forwarded_pressed_keys.to_vec().contains(&30));
    kb.events = Vec::new();
    let s2 = serials.next_serial();
    let got = kb.input::<u32, _>(30, KeyState::Released, s2, 2, |_mods, sym, _kc| {
        FilterResult::Intercept(sym)
    });
    assert_eq!(got, Some(0x61));
    assert!(
        !kb.pressed_keys().contains(&30),
        "a released key is no longer pressed"
    );
    assert!(
        !kb.internal.forwarded_pressed_keys.to_vec().contains(&30),
        "a swallowed release still leaves the forwarded set"
    );
    assert!(
        kb.events.iter().all(|e| !matches!(e, KeyboardEvent::Key { .. })),
        "the client receives no release event for a swallowed release"
    );
}

#[test]
fn keymap_text_with_includes_is_rejected_up_front() {
    let mut kb = KeyboardHandle::new_from_keymap(sample_keymap(), 1000, 200);
    let mut serials = SerialCounter::new();
    let text = "xkb_keymap { xkb_symbols { include \"us:abc\" }; };";
    let got = kb.set_keymap_from_string(&mut serials, text);
    assert_eq!(
        got,
        Err(KeyboardError::BadKeymap),
        "a keymap text that would pull in files of this machine is rejected"
    );
    assert_eq!(kb.keymap_file.keymap, "sample keymap text");
}
