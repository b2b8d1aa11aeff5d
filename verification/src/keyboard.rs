//! The keyboard focus and grab state machine. It owns an XKB engine
//! instance, tracks the pressed and forwarded key sets, transfers focus
//! with the protocol's enter/leave/modifiers ordering, replaces keymaps
//! while preserving the pressed state, and records every event delivered
//! to clients in an event log that the host drains and puts on the wire.

use vstd::prelude::*;
use crate::keyset::KeySet;
use crate::serial::{Serial, SerialCounter};
use crate::xkb::{
    spec_key_lock_mask, spec_led_state_of, spec_mods_state_of, spec_replay_locked, KeymapModel,
    LedMapping, LedState, ModifiersState, Xkb, XkbState,
};

verus! {

/// The state of a key on the wire.
#[derive(Debug, PartialEq, Eq, Clone, Copy, Hash, Structural)]
pub enum KeyState {
    /// Key is released.
    Released,
    /// Key is pressed.
    Pressed,
}

/// Errors that can be encountered when creating a keyboard handler.
#[derive(Debug, PartialEq, Eq, Clone, Copy, Structural)]
pub enum KeyboardError {
    /// The keymap compiler could not load the specified keymap.
    BadKeymap,
    /// No shareable memory region could be created for the keymap export.
    IoError,
}

/// Result of the key input filter: forward the keystroke to the client,
/// or swallow it and hand a value back to the caller.
#[derive(Debug)]
pub enum FilterResult<T> {
    /// Forward the given keycode to the client.
    Forward,
    /// Do not forward, and return the value.
    Intercept(T),
}

/// Data about the event that started a grab.
#[derive(Debug, Clone, Copy, PartialEq, Eq, Structural)]
pub struct GrabStartData {
    /// The focused target, if any, at the start of the grab.
    pub focus: Option<u64>,
}

/// An active grab handler. Only the default handler exists in this
/// compositor: it routes events to the focused client.
#[derive(Debug, Clone, Copy, PartialEq, Eq, Structural)]
pub struct KeyboardGrab {
    /// The focus at the start of the grab.
    pub start_data: GrabStartData,
}

/// The grab state. `Borrowed` marks the span of a handler invocation: a
/// grab can neither be started nor replaced from within its own callback.
#[derive(Debug, Clone, Copy, PartialEq, Eq, Structural)]
pub enum GrabStatus {
    /// Input follows the current focus.
    NoGrab,
    /// An exclusive grab, with the serial that started it.
    Active(Serial, KeyboardGrab),
    /// A handler is currently being invoked.
    Borrowed,
}

/// One client keyboard object known to the handler.
#[derive(Debug, Clone, Copy, PartialEq, Eq, Structural)]
pub struct KbdResource {
    /// The object's identity.
    pub id: u64,
    /// The protocol version the client bound.
    pub version: u32,
    /// Whether the client is still connected.
    pub alive: bool,
    /// The keymap version this object was last sent.
    pub last_keymap: u64,
}

/// An event delivered to clients, as recorded by the state machine. The
/// host drains this log and performs the wire sends, in order.
#[derive(Debug, Clone, PartialEq)]
pub enum KeyboardEvent {
    /// The target gained keyboard focus; `keys` are the keys already held.
    Enter {
        /// The focused target.
        target: u64,
        /// The serial of the focus change.
        serial: Serial,
        /// The forwarded keys held at the time of entry.
        keys: Vec<u32>,
    },
    /// The target lost keyboard focus.
    Leave {
        /// The target that lost focus.
        target: u64,
        /// The serial of the focus change.
        serial: Serial,
    },
    /// A key event was forwarded to the target.
    Key {
        /// The focused target.
        target: u64,
        /// The physical key code.
        keycode: u32,
        /// Pressed or released.
        state: KeyState,
        /// The serial of the event batch.
        serial: Serial,
        /// Milliseconds since the compositor started.
        time: u32,
    },
    /// The target was told the current modifier state.
    Modifiers {
        /// The focused target.
        target: u64,
        /// The modifier state sent.
        mods: ModifiersState,
        /// The serial of the event batch.
        serial: Serial,
    },
    /// A client keyboard object was sent a new keymap.
    KeymapSent {
        /// The client keyboard object.
        kbd: u64,
        /// The keymap version pushed.
        keymap_id: u64,
    },
    /// A client keyboard object was sent the repeat parameters.
    RepeatInfo {
        /// The client keyboard object.
        kbd: u64,
        /// Repeat rate, in characters per second.
        rate: i32,
        /// Delay before repeat starts, in milliseconds.
        delay: i32,
    },
    /// The LED state changed.
    LedsChanged {
        /// The new LED state.
        leds: LedState,
    },
}

/// Whether `e` is a leave event for `target` under `serial`.
pub open spec fn is_leave(e: KeyboardEvent, target: u64, serial: Serial) -> bool {
    e == (KeyboardEvent::Leave { target, serial })
}

/// Whether `e` is an enter event for `target` under `serial` carrying
/// exactly the held keys `keys`.
pub open spec fn is_enter(e: KeyboardEvent, target: u64, serial: Serial, keys: Seq<u32>) -> bool {
    &&& e matches KeyboardEvent::Enter { target: t, serial: s, keys: k }
    &&& t == target
    &&& s == serial
    &&& k@ == keys
}

/// Whether `e` is a modifiers event for `target` under `serial`.
pub open spec fn is_modifiers(
    e: KeyboardEvent,
    target: u64,
    mods: ModifiersState,
    serial: Serial,
) -> bool {
    e == (KeyboardEvent::Modifiers { target, mods, serial })
}

/// Whether `e` is a key event for `target`.
pub open spec fn is_key(
    e: KeyboardEvent,
    target: u64,
    keycode: u32,
    state: KeyState,
    serial: Serial,
    time: u32,
) -> bool {
    e == (KeyboardEvent::Key { target, keycode, state, serial, time })
}

/// How one key event advances the engine state: the pressed keys follow
/// the event — a press appends a key not yet held, a release removes
/// the key at the one position it held — a press toggles the key's lock
/// bits, and the locked layout, the latched mask and the keymap stay.
pub open spec fn spec_engine_step(
    pre: XkbState,
    post: XkbState,
    keycode: u32,
    state: KeyState,
) -> bool {
    &&& post.keymap == pre.keymap
    &&& post.locked == if state == KeyState::Pressed {
        pre.locked ^ spec_key_lock_mask(pre.keymap, keycode)
    } else {
        pre.locked
    }
    &&& post.locked_layout == pre.locked_layout
    &&& post.latched == pre.latched
    &&& post.pressed.set_view() == if state == KeyState::Pressed {
        pre.pressed.set_view().insert(keycode)
    } else {
        pre.pressed.set_view().remove(keycode)
    }
    &&& (state == KeyState::Pressed ==> post.pressed.seq_view() == if pre.pressed.set_view(
    ).contains(keycode) {
        pre.pressed.seq_view()
    } else {
        pre.pressed.seq_view().push(keycode)
    })
    &&& (state == KeyState::Released && pre.pressed.set_view().contains(keycode) ==> exists|
        i: int|
        0 <= i < pre.pressed.seq_view().len() && #[trigger] pre.pressed.seq_view()[i] == keycode
            && post.pressed.seq_view() == pre.pressed.seq_view().remove(i))
    &&& (state == KeyState::Released && !pre.pressed.set_view().contains(keycode)
        ==> post.pressed.seq_view() == pre.pressed.seq_view())
}

/// The record of an LED change: one event when the state changed,
/// nothing otherwise.
pub open spec fn spec_led_change_events(before: LedState, after: LedState) -> Seq<KeyboardEvent> {
    if after != before {
        seq![KeyboardEvent::LedsChanged { leds: after }]
    } else {
        Seq::empty()
    }
}

/// An immutable, versioned textual keymap export. Clients receive the
/// text through a shareable memory region the host backs it with; the id
/// increases with every replacement, so a push is never half-updated.
#[derive(Debug, Clone)]
pub struct KeymapFile {
    /// The keymap text, in the textual wire format.
    pub keymap: String,
    /// The version of this export; later exports carry greater ids.
    pub id: u64,
}

impl KeymapFile {
    /// Wrap a keymap's textual form under the given version id.
    pub fn new(keymap: &KeymapModel, id: u64) -> (r: KeymapFile)
        ensures
            r.keymap@ == keymap.text@,
            r.id == id,
    {
        KeymapFile { keymap: keymap.text.clone(), id }
    }

    /// Replace the content wholesale under a new version id; versions
    /// only ever increase, so a push is never a step back.
    pub fn change_keymap(&mut self, keymap: &KeymapModel, id: u64)
        requires
            old(self).id < id,
        ensures
            final(self).keymap@ == keymap.text@,
            final(self).id == id,
            old(self).id < final(self).id,
    {
        self.keymap = keymap.text.clone();
        self.id = id;
    }

    /// This export's version id.
    pub fn id(&self) -> (r: u64)
        ensures
            r == self.id,
    {
        self.id
    }
}

/// The keyboard state machine's internal state.
#[derive(Debug)]
pub struct KbdInternal {
    /// The focused target and the serial of its enter, if any.
    pub focus: Option<(u64, Serial)>,
    /// The focus requested most recently, applied by the grab logic.
    pub pending_focus: Option<u64>,
    /// The subset of pressed keys that was forwarded to clients.
    pub forwarded_pressed_keys: KeySet,
    /// The current modifier state.
    pub mods_state: ModifiersState,
    /// The XKB engine: compiled keymap and live state. The engine owns
    /// the pressed-key set.
    pub xkb: Xkb,
    /// Key repeat rate, in characters per second.
    pub repeat_rate: i32,
    /// Delay before key repeat starts, in milliseconds.
    pub repeat_delay: i32,
    /// Which locked masks drive the LEDs.
    pub led_mapping: LedMapping,
    /// The current LED state.
    pub led_state: LedState,
    /// The grab state.
    pub grab: GrabStatus,
}

impl KbdInternal {
    /// Internal consistency: the engine state is well formed, and the
    /// modifier and LED states are exactly what the engine exhibits.
    pub open spec fn wf(self) -> bool {
        &&& self.xkb.state.wf()
        &&& self.forwarded_pressed_keys.wf()
        &&& self.mods_state == spec_mods_state_of(self.xkb.state)
        &&& self.led_state == spec_led_state_of(self.xkb.state, self.led_mapping)
    }

    /// The set of currently pressed keys.
    pub open spec fn spec_pressed(self) -> Set<u32> {
        self.xkb.state.pressed.set_view()
    }

    /// The set of forwarded pressed keys.
    pub open spec fn spec_forwarded(self) -> Set<u32> {
        self.forwarded_pressed_keys.set_view()
    }

    /// A fresh state machine over a compiled keymap: nothing pressed, no
    /// focus, no grab, modifiers and LEDs read off the fresh engine state.
    pub fn new(keymap: KeymapModel, repeat_rate: i32, repeat_delay: i32) -> (r: KbdInternal)
        requires
            keymap.wf(),
        ensures
            r.wf(),
            r.focus is None,
            r.pending_focus is None,
            r.spec_pressed() == Set::<u32>::empty(),
            r.xkb.state.pressed.seq_view().len() == 0,
            r.spec_forwarded() == Set::<u32>::empty(),
            r.xkb.state.keymap == keymap,
            r.xkb.state.depressed == 0u32,
            r.xkb.state.latched == 0u32,
            r.xkb.state.locked == 0u32,
            r.xkb.state.locked_layout == 0u32,
            r.mods_state == spec_mods_state_of(r.xkb.state),
            r.led_state == spec_led_state_of(r.xkb.state, r.led_mapping),
            r.led_mapping == (LedMapping {
                num: keymap.leds.num,
                caps: keymap.leds.caps,
                scroll: keymap.leds.scroll,
            }),
            r.repeat_rate == repeat_rate,
            r.repeat_delay == repeat_delay,
            r.grab == GrabStatus::NoGrab,
    {
        let state = XkbState::new(keymap);
        let led_mapping = LedMapping::from_keymap(&state.keymap);
        let led_state = LedState::from_state(&state, &led_mapping);
        let mut mods_state = ModifiersState::default();
        mods_state.update_with(&state);
        KbdInternal {
            focus: None,
            pending_focus: None,
            forwarded_pressed_keys: KeySet::new(),
            mods_state,
            xkb: Xkb { state },
            repeat_rate,
            repeat_delay,
            led_mapping,
            led_state,
            grab: GrabStatus::NoGrab,
        }
    }

    /// Advance the engine by one key event and recompute the modifier and
    /// LED states. Returns whether the modifiers and whether the LEDs
    /// changed, so callers avoid redundant broadcasts.
    pub fn key_input(&mut self, keycode: u32, state: KeyState) -> (r: (bool, bool))
        requires
            old(self).wf(),
        ensures
            final(self).wf(),
            final(self).xkb.state.keymap == old(self).xkb.state.keymap,
            spec_engine_step(old(self).xkb.state, final(self).xkb.state, keycode, state),
            final(self).spec_pressed() == if state == KeyState::Pressed {
                old(self).spec_pressed().insert(keycode)
            } else {
                old(self).spec_pressed().remove(keycode)
            },
            final(self).spec_forwarded() == old(self).spec_forwarded(),
            final(self).forwarded_pressed_keys == old(self).forwarded_pressed_keys,
            final(self).focus == old(self).focus,
            final(self).pending_focus == old(self).pending_focus,
            final(self).grab == old(self).grab,
            final(self).repeat_rate == old(self).repeat_rate,
            final(self).repeat_delay == old(self).repeat_delay,
            final(self).led_mapping == old(self).led_mapping,
            final(self).mods_state == spec_mods_state_of(final(self).xkb.state),
            r.0 == (final(self).mods_state != old(self).mods_state),
            r.1 == (final(self).led_state != old(self).led_state),
    {
        let down = match state {
            KeyState::Pressed => true,
            KeyState::Released => false,
        };
        let _changes = self.xkb.state.update_key(keycode, down);
        let old_mods = self.mods_state;
        self.mods_state.update_with(&self.xkb.state);
        let mods_changed = self.mods_state != old_mods;
        let leds_changed = self.led_state.update_with(&self.xkb.state, &self.led_mapping);
        (mods_changed, leds_changed)
    }
}

/// A handle to a keyboard: the state machine, the current keymap export,
/// the client keyboard objects it pushes keymaps to, and the log of
/// events delivered to clients.
#[derive(Debug)]
pub struct KeyboardHandle {
    /// The keyboard state machine.
    pub internal: KbdInternal,
    /// The current keymap export.
    pub keymap_file: KeymapFile,
    /// The client keyboard objects known to this handler.
    pub known_kbds: Vec<KbdResource>,
    /// The serial of the last enter, while that focus is still active.
    pub last_enter: Option<Serial>,
    /// The keymap version the clients were last sent.
    pub active_keymap: u64,
    /// The next keymap version id to hand out.
    pub next_keymap_id: u64,
    /// The events delivered to clients, in order.
    pub events: Vec<KeyboardEvent>,
}

impl KeyboardHandle {
    /// Internal consistency: the machine is well formed, no handler
    /// invocation is in progress, the keymap export's version is below the
    /// next one to hand out, and the clients have seen the current export.
    pub open spec fn wf(self) -> bool {
        &&& self.internal.wf()
        &&& !(self.internal.grab is Borrowed)
        &&& self.keymap_file.id < self.next_keymap_id
        &&& self.active_keymap == self.keymap_file.id
        &&& forall|i: int|
            0 <= i < self.known_kbds@.len() ==> ((#[trigger] self.known_kbds@[i]).alive
                ==> self.known_kbds@[i].last_keymap == self.active_keymap)
    }

    /// A keyboard handler over a compiled keymap.
    pub fn new_from_keymap(keymap: KeymapModel, repeat_delay: i32, repeat_rate: i32) -> (r:
        KeyboardHandle)
        requires
            keymap.wf(),
        ensures
            r.wf(),
            r.internal.focus is None,
            r.internal.spec_pressed() == Set::<u32>::empty(),
            r.internal.xkb.state.pressed.seq_view().len() == 0,
            r.internal.spec_forwarded() == Set::<u32>::empty(),
            r.internal.xkb.state.keymap == keymap,
            r.internal.xkb.state.depressed == 0u32,
            r.internal.xkb.state.latched == 0u32,
            r.internal.xkb.state.locked == 0u32,
            r.internal.xkb.state.locked_layout == 0u32,
            r.internal.led_mapping == (LedMapping {
                num: keymap.leds.num,
                caps: keymap.leds.caps,
                scroll: keymap.leds.scroll,
            }),
            r.internal.repeat_delay == repeat_delay,
            r.internal.repeat_rate == repeat_rate,
            r.keymap_file.keymap@ == keymap.text@,
            r.keymap_file.id == 0u64,
            r.events@.len() == 0,
            r.known_kbds@.len() == 0,
            r.last_enter is None,
    {
        let keymap_file = KeymapFile::new(&keymap, 0);
        let internal = KbdInternal::new(keymap, repeat_rate, repeat_delay);
        KeyboardHandle {
            internal,
            keymap_file,
            known_kbds: Vec::new(),
            last_enter: None,
            active_keymap: 0,
            next_keymap_id: 1,
            events: Vec::new(),
        }
    }

    /// Register a client keyboard object: it is sent the current keymap
    /// export at once, and receives every future push.
    pub fn register_kbd(&mut self, id: u64, version: u32)
        requires
            old(self).wf(),
        ensures
            final(self).wf(),
            final(self).known_kbds@ == old(self).known_kbds@.push(
                KbdResource { id, version, alive: true, last_keymap: old(self).active_keymap },
            ),
            final(self).events@ == old(self).events@.push(
                KeyboardEvent::KeymapSent { kbd: id, keymap_id: old(self).keymap_file.id },
            ),
            *final(self) == (KeyboardHandle {
                known_kbds: final(self).known_kbds,
                events: final(self).events,
                ..*old(self)
            }),
    {
        let current = self.active_keymap;
        self.known_kbds.push(KbdResource { id, version, alive: true, last_keymap: current });
        self.events.push(KeyboardEvent::KeymapSent { kbd: id, keymap_id: current });
    }

    /// Start an exclusive grab under `serial`, remembering the current
    /// focus as its start data. A grab already started under a newer
    /// serial stays; a request carrying an older serial never displaces
    /// it. Returns whether the grab was installed.
    pub fn set_grab(&mut self, serial: Serial) -> (r: bool)
        requires
            old(self).wf(),
        ensures
            final(self).wf(),
            match old(self).internal.grab {
                GrabStatus::Active(s, _) => if serial.spec_lt(s) {
                    r == false && final(self).internal.grab == old(self).internal.grab
                } else {
                    r == true && (final(self).internal.grab matches GrabStatus::Active(s2, _)
                        && s2 == serial)
                },
                GrabStatus::NoGrab => r == true && (final(self).internal.grab matches
                    GrabStatus::Active(s2, _) && s2 == serial),
                GrabStatus::Borrowed => false,
            },
            *final(self) == (KeyboardHandle {
                internal: KbdInternal { grab: final(self).internal.grab, ..old(self).internal },
                ..*old(self)
            }),
    {
        let focus = self.current_focus();
        match &self.internal.grab {
            GrabStatus::Active(s, _) => {
                if serial.is_older_than(s) {
                    return false;
                }
            },
            GrabStatus::NoGrab => {},
            GrabStatus::Borrowed => {
                return false;
            },
        }
        self.internal.grab = GrabStatus::Active(
            serial,
            KeyboardGrab { start_data: GrabStartData { focus } },
        );
        true
    }

    /// Remove any grab, resetting input delivery to the default behavior.
    pub fn unset_grab(&mut self)
        requires
            old(self).wf(),
        ensures
            final(self).wf(),
            final(self).internal.grab == GrabStatus::NoGrab,
            *final(self) == (KeyboardHandle {
                internal: KbdInternal { grab: GrabStatus::NoGrab, ..old(self).internal },
                ..*old(self)
            }),
    {
        self.internal.grab = GrabStatus::NoGrab;
    }

    /// Whether this keyboard is grabbed with this serial.
    pub fn has_grab(&self, serial: Serial) -> (r: bool)
        ensures
            r == match self.internal.grab {
                GrabStatus::Active(s, _) => s == serial,
                _ => false,
            },
    {
        match &self.internal.grab {
            GrabStatus::Active(s, _) => s.value == serial.value,
            _ => false,
        }
    }

    /// Whether this keyboard is currently grabbed.
    pub fn is_grabbed(&self) -> (r: bool)
        ensures
            r == !(self.internal.grab is NoGrab),
    {
        !matches!(&self.internal.grab, GrabStatus::NoGrab)
    }

    /// The start data of the grab, if one is active.
    pub fn grab_start_data(&self) -> (r: Option<GrabStartData>)
        ensures
            r == match self.internal.grab {
                GrabStatus::Active(_, g) => Some(g.start_data),
                _ => None,
            },
    {
        match &self.internal.grab {
            GrabStatus::Active(_, g) => Some(g.start_data),
            _ => None,
        }
    }

    /// The current keyboard focus.
    pub fn current_focus(&self) -> (r: Option<u64>)
        ensures
            r == match self.internal.focus {
                Some((f, _)) => Some(f),
                None => None,
            },
    {
        match &self.internal.focus {
            Some((f, _)) => Some(*f),
            None => None,
        }
    }

    /// Whether the keyboard has a focus.
    pub fn is_focused(&self) -> (r: bool)
        ensures
            r == (self.internal.focus is Some),
    {
        matches!(&self.internal.focus, Some(_))
    }

    /// The key codes of the currently pressed keys.
    pub fn pressed_keys(&self) -> (r: Vec<u32>)
        ensures
            r@ == self.internal.xkb.state.pressed.seq_view(),
    {
        self.internal.xkb.state.pressed.to_vec()
    }

    /// The current modifier state.
    pub fn modifier_state(&self) -> (r: ModifiersState)
        ensures
            r == self.internal.mods_state,
    {
        self.internal.mods_state
    }

    /// The current LED state.
    pub fn led_state(&self) -> (r: LedState)
        ensures
            r == self.internal.led_state,
    {
        self.internal.led_state
    }

    /// The serial of the last enter, if that focus is still active.
    pub fn last_enter(&self) -> (r: Option<Serial>)
        ensures
            r == self.last_enter,
    {
        self.last_enter
    }

    /// Change the repeat parameters, and tell every still-alive client
    /// keyboard object whose protocol version carries the event.
    pub fn change_repeat_info(&mut self, rate: i32, delay: i32)
        requires
            old(self).wf(),
        ensures
            final(self).wf(),
            final(self).internal.repeat_rate == rate,
            final(self).internal.repeat_delay == delay,
            final(self).events@ == old(self).events@ + spec_repeat_info_events(
                old(self).known_kbds@, rate, delay),
            final(self).internal.focus == old(self).internal.focus,
            final(self).internal.xkb.state == old(self).internal.xkb.state,
            final(self).internal.forwarded_pressed_keys == old(self).internal.forwarded_pressed_keys,
            final(self).known_kbds == old(self).known_kbds,
            final(self).keymap_file == old(self).keymap_file,
            final(self).last_enter == old(self).last_enter,
    {
        self.internal.repeat_delay = delay;
        self.internal.repeat_rate = rate;
        let ghost kbds = self.known_kbds@;
        let mut i: usize = 0;
        proof {
            assert(kbds.skip(0) =~= kbds);
            assert(self.events@ =~= self.events@ + spec_repeat_info_events(kbds, rate, delay).take(
                0));
        }
        while i < self.known_kbds.len()
            invariant
                kbds == self.known_kbds@,
                i <= kbds.len(),
                self.events@ == old(self).events@ + spec_repeat_info_events(kbds.take(i as int),
                    rate, delay),
                *self == (KeyboardHandle {
                    internal: KbdInternal {
                        repeat_rate: rate,
                        repeat_delay: delay,
                        ..old(self).internal
                    },
                    events: self.events,
                    ..*old(self)
                }),
            decreases kbds.len() - i,
        {
            let kbd = self.known_kbds[i];
            if kbd.alive && kbd.version >= 4 {
                self.events.push(KeyboardEvent::RepeatInfo { kbd: kbd.id, rate, delay });
            }
            proof {
                assert(kbds.take(i + 1).drop_last() =~= kbds.take(i as int));
                assert(kbds.take(i + 1).last() == kbds[i as int]);
                if kbds[i as int].alive && kbds[i as int].version >= 4 {
                    assert(self.events@ =~= old(self).events@ + spec_repeat_info_events(
                        kbds.take(i + 1), rate, delay));
                } else {
                    assert(spec_repeat_info_events(kbds.take(i + 1), rate, delay)
                        =~= spec_repeat_info_events(kbds.take(i as int), rate, delay));
                }
            }
            i = i + 1;
        }
        proof {
            assert(kbds.take(kbds.len() as int) =~= kbds);
        }
    }
}

/// The repeat-info events pushed to a list of client keyboard objects:
/// one per object that is alive and of version four or newer, in order.
pub open spec fn spec_repeat_info_events(kbds: Seq<KbdResource>, rate: i32, delay: i32) -> Seq<
    KeyboardEvent>
    decreases kbds.len(),
{
    if kbds.len() == 0 {
        Seq::empty()
    } else {
        spec_repeat_info_events(kbds.drop_last(), rate, delay) + (if kbds.last().alive
            && kbds.last().version >= 4 {
            seq![KeyboardEvent::RepeatInfo { kbd: kbds.last().id, rate, delay }]
        } else {
            Seq::empty()
        })
    }
}

/// What a focus transfer does: the new target enters under the given
/// serial; a different prior focus leaves first; the enter carries the
/// forwarded pressed keys and is followed by a modifiers event under the
/// same serial, in that fixed order. Handing the focus it already has to
/// the keyboard produces no traffic. Everything else is unchanged.
pub open spec fn spec_set_focus_post(
    pre: KeyboardHandle,
    post: KeyboardHandle,
    focus: Option<u64>,
    serial: Serial,
) -> bool {
    let n = pre.events@.len() as int;
    &&& post.events@.len() >= n
    &&& post.events@.take(n) == pre.events@
    &&& match focus {
        Some(f) => {
            &&& post.internal.focus == Some((f, serial))
            &&& match pre.internal.focus {
                Some((o, os)) => if o == f {
                    &&& post.events@ == pre.events@
                    &&& post.last_enter == pre.last_enter
                } else {
                    &&& post.events@.len() == n + 3
                    &&& is_leave(post.events@[n], o, serial)
                    &&& is_enter(post.events@[n + 1], f, serial,
                        pre.internal.forwarded_pressed_keys.seq_view())
                    &&& is_modifiers(post.events@[n + 2], f, pre.internal.mods_state, serial)
                    &&& post.last_enter == Some(serial)
                },
                None => {
                    &&& post.events@.len() == n + 2
                    &&& is_enter(post.events@[n], f, serial,
                        pre.internal.forwarded_pressed_keys.seq_view())
                    &&& is_modifiers(post.events@[n + 1], f, pre.internal.mods_state, serial)
                    &&& post.last_enter == Some(serial)
                },
            }
        },
        None => match pre.internal.focus {
            Some((o, os)) => {
                &&& post.internal.focus is None
                &&& post.events@.len() == n + 1
                &&& is_leave(post.events@[n], o, serial)
                &&& post.last_enter is None
            },
            None => {
                &&& post.internal.focus is None
                &&& post.events@ == pre.events@
                &&& post.last_enter == pre.last_enter
            },
        },
    }
    &&& post.internal.xkb.state == pre.internal.xkb.state
    &&& post.internal.forwarded_pressed_keys == pre.internal.forwarded_pressed_keys
    &&& post.internal.mods_state == pre.internal.mods_state
    &&& post.internal.led_state == pre.internal.led_state
    &&& post.internal.led_mapping == pre.internal.led_mapping
    &&& post.internal.repeat_rate == pre.internal.repeat_rate
    &&& post.internal.repeat_delay == pre.internal.repeat_delay
    &&& post.internal.grab == pre.internal.grab
    &&& post.internal.pending_focus == focus
    &&& post.keymap_file == pre.keymap_file
    &&& post.known_kbds == pre.known_kbds
    &&& post.active_keymap == pre.active_keymap
    &&& post.next_keymap_id == pre.next_keymap_id
}

impl KeyboardHandle {
    /// Set the current focus of this keyboard.
    ///
    /// A different prior focus is sent a leave; a new focus that is not
    /// `None` is sent an enter with the forwarded pressed keys, then a
    /// modifiers event, all under `serial`. Setting the focus the
    /// keyboard already has is a no-op for the clients.
    pub fn set_focus(&mut self, focus: Option<u64>, serial: Serial)
        requires
            old(self).wf(),
        ensures
            final(self).wf(),
            spec_set_focus_post(*old(self), *final(self), focus, serial),
    {
        self.internal.pending_focus = focus;
        let saved_grab = self.internal.grab;
        self.internal.grab = GrabStatus::Borrowed;
        let ghost n = self.events@.len() as int;
        match focus {
            Some(f) => {
                let old_focus = self.internal.focus;
                self.internal.focus = Some((f, serial));
                match old_focus {
                    Some((o, _)) => {
                        if o != f {
                            let keys = self.internal.forwarded_pressed_keys.to_vec();
                            self.events.push(KeyboardEvent::Leave { target: o, serial });
                            self.events.push(KeyboardEvent::Enter { target: f, serial, keys });
                            self.events.push(KeyboardEvent::Modifiers {
                                target: f,
                                mods: self.internal.mods_state,
                                serial,
                            });
                            self.last_enter = Some(serial);
                            proof {
                                assert(self.events@.take(n) =~= old(self).events@);
                            }
                        }
                    },
                    None => {
                        let keys = self.internal.forwarded_pressed_keys.to_vec();
                        self.events.push(KeyboardEvent::Enter { target: f, serial, keys });
                        self.events.push(KeyboardEvent::Modifiers {
                            target: f,
                            mods: self.internal.mods_state,
                            serial,
                        });
                        self.last_enter = Some(serial);
                        proof {
                            assert(self.events@.take(n) =~= old(self).events@);
                        }
                    },
                }
            },
            None => {
                match self.internal.focus {
                    Some((o, _)) => {
                        self.internal.focus = None;
                        self.events.push(KeyboardEvent::Leave { target: o, serial });
                        self.last_enter = None;
                        proof {
                            assert(self.events@.take(n) =~= old(self).events@);
                        }
                    },
                    None => {},
                }
            },
        }
        self.internal.grab = saved_grab;
        proof {
            assert(self.events@.take(self.events@.len() as int) =~= self.events@);
        }
    }
}

/// What forwarding one key event does: the forwarded set follows the key
/// state, and the focused client — if any — receives the key event and,
/// when the modifiers changed, a modifiers event under the same serial.
pub open spec fn spec_input_forward_post(
    pre: KeyboardHandle,
    post: KeyboardHandle,
    keycode: u32,
    state: KeyState,
    serial: Serial,
    time: u32,
    mods_changed: bool,
) -> bool {
    let n = pre.events@.len() as int;
    &&& post.internal.spec_forwarded() == if state == KeyState::Pressed {
        pre.internal.spec_forwarded().insert(keycode)
    } else {
        pre.internal.spec_forwarded().remove(keycode)
    }
    &&& post.events@.take(n) == pre.events@
    &&& match pre.internal.focus {
        Some((f, fs)) => if mods_changed {
            &&& post.events@.len() == n + 2
            &&& is_key(post.events@[n], f, keycode, state, serial, time)
            &&& is_modifiers(post.events@[n + 1], f, pre.internal.mods_state, serial)
        } else {
            &&& post.events@.len() == n + 1
            &&& is_key(post.events@[n], f, keycode, state, serial, time)
        },
        None => post.events@ == pre.events@,
    }
    &&& post.internal.xkb.state == pre.internal.xkb.state
    &&& post.internal.mods_state == pre.internal.mods_state
    &&& post.internal.led_state == pre.internal.led_state
    &&& post.internal.led_mapping == pre.internal.led_mapping
    &&& post.internal.focus == pre.internal.focus
    &&& post.internal.pending_focus == pre.internal.pending_focus
    &&& post.internal.grab == pre.internal.grab
    &&& post.internal.repeat_rate == pre.internal.repeat_rate
    &&& post.internal.repeat_delay == pre.internal.repeat_delay
    &&& post.keymap_file == pre.keymap_file
    &&& post.known_kbds == pre.known_kbds
    &&& post.last_enter == pre.last_enter
    &&& post.active_keymap == pre.active_keymap
    &&& post.next_keymap_id == pre.next_keymap_id
}

impl KeyboardHandle {
    /// Forward a key event to the focused client.
    ///
    /// Useful in conjunction with [`KeyboardHandle::input_intercept`],
    /// when the decision whether to forward is made elsewhere.
    pub fn input_forward(
        &mut self,
        keycode: u32,
        state: KeyState,
        serial: Serial,
        time: u32,
        mods_changed: bool,
    )
        requires
            old(self).wf(),
        ensures
            final(self).wf(),
            spec_input_forward_post(*old(self), *final(self), keycode, state, serial, time,
                mods_changed),
    {
        let down = match state {
            KeyState::Pressed => true,
            KeyState::Released => false,
        };
        if down {
            self.internal.forwarded_pressed_keys.insert(keycode);
        } else {
            self.internal.forwarded_pressed_keys.remove(keycode);
        }
        let saved_grab = self.internal.grab;
        self.internal.grab = GrabStatus::Borrowed;
        let ghost n = self.events@.len() as int;
        match self.internal.focus {
            Some((f, _)) => {
                self.events.push(KeyboardEvent::Key { target: f, keycode, state, serial, time });
                if mods_changed {
                    self.events.push(KeyboardEvent::Modifiers {
                        target: f,
                        mods: self.internal.mods_state,
                        serial,
                    });
                }
                proof {
                    assert(self.events@.take(n) =~= old(self).events@);
                }
            },
            None => {},
        }
        self.internal.grab = saved_grab;
        proof {
            assert(self.events@.take(self.events@.len() as int) =~= self.events@);
        }
    }

    /// Update the keyboard state by one keystroke and hand the resulting
    /// modifiers and keysym to the filter, without forwarding anything to
    /// the focused client. Returns the filter's result and whether the
    /// modifiers changed, for a later [`KeyboardHandle::input_forward`].
    ///
    /// A released key leaves the forwarded set here, whether or not the
    /// caller forwards: the client receives no release event for a
    /// swallowed release, but never keeps a key that is no longer
    /// pressed, so the forwarded keys stay a subset of the pressed keys.
    pub fn input_intercept<T, F: FnOnce(ModifiersState, u32, u32) -> FilterResult<T>>(
        &mut self,
        keycode: u32,
        state: KeyState,
        filter: F,
    ) -> (r: (FilterResult<T>, bool))
        requires
            old(self).wf(),
            forall|args: (ModifiersState, u32, u32)| #[trigger] call_requires(filter, args),
        ensures
            final(self).wf(),
            final(self).internal.xkb.state.keymap == old(self).internal.xkb.state.keymap,
            final(self).internal.spec_pressed() == if state == KeyState::Pressed {
                old(self).internal.spec_pressed().insert(keycode)
            } else {
                old(self).internal.spec_pressed().remove(keycode)
            },
            final(self).internal.spec_forwarded() == if state == KeyState::Released {
                old(self).internal.spec_forwarded().remove(keycode)
            } else {
                old(self).internal.spec_forwarded()
            },
            spec_engine_step(old(self).internal.xkb.state, final(self).internal.xkb.state,
                keycode, state),
            final(self).internal.focus == old(self).internal.focus,
            final(self).internal.pending_focus == old(self).internal.pending_focus,
            final(self).internal.grab == old(self).internal.grab,
            final(self).internal.repeat_rate == old(self).internal.repeat_rate,
            final(self).internal.repeat_delay == old(self).internal.repeat_delay,
            final(self).internal.led_mapping == old(self).internal.led_mapping,
            final(self).internal.mods_state == spec_mods_state_of(final(self).internal.xkb.state),
            final(self).keymap_file == old(self).keymap_file,
            final(self).known_kbds == old(self).known_kbds,
            final(self).last_enter == old(self).last_enter,
            final(self).active_keymap == old(self).active_keymap,
            final(self).next_keymap_id == old(self).next_keymap_id,
            call_ensures(filter, (final(self).internal.mods_state,
                final(self).internal.xkb.state.spec_modified_sym(keycode), keycode), r.0),
            r.1 == (final(self).internal.mods_state != old(self).internal.mods_state),
            final(self).events@ == old(self).events@ + spec_led_change_events(
                old(self).internal.led_state, final(self).internal.led_state),
    {
        let (mods_changed, leds_changed) = self.internal.key_input(keycode, state);
        match state {
            KeyState::Released => {
                self.internal.forwarded_pressed_keys.remove(keycode);
            },
            KeyState::Pressed => {},
        }
        let sym = self.internal.xkb.state.key_get_one_sym(keycode);
        let mods = self.internal.mods_state;
        let result = filter(mods, sym, keycode);
        if leds_changed {
            self.events.push(KeyboardEvent::LedsChanged { leds: self.internal.led_state });
        }
        proof {
            assert(self.events@ =~= old(self).events@ + spec_led_change_events(
                old(self).internal.led_state, self.internal.led_state));
        }
        (result, mods_changed)
    }

    /// Handle one keystroke, fed in order from the input backend.
    ///
    /// The filter peeks at the resulting modifiers and keysym before the
    /// key reaches the client. When it intercepts, the keystroke is
    /// swallowed and its value returned: no key or modifiers event
    /// reaches any client. When it forwards, the focused client receives
    /// the key and, exactly if the modifiers changed, a modifiers event
    /// under the same serial. Either way a released key leaves both the
    /// pressed and the forwarded set, so the forwarded keys stay a
    /// subset of the pressed keys over every sequence of keystrokes.
    pub fn input<T, F: FnOnce(ModifiersState, u32, u32) -> FilterResult<T>>(
        &mut self,
        keycode: u32,
        state: KeyState,
        serial: Serial,
        time: u32,
        filter: F,
    ) -> (r: Option<T>)
        requires
            old(self).wf(),
            forall|args: (ModifiersState, u32, u32)| #[trigger] call_requires(filter, args),
        ensures
            final(self).wf(),
            final(self).internal.xkb.state.keymap == old(self).internal.xkb.state.keymap,
            final(self).internal.spec_pressed() == if state == KeyState::Pressed {
                old(self).internal.spec_pressed().insert(keycode)
            } else {
                old(self).internal.spec_pressed().remove(keycode)
            },
            final(self).internal.focus == old(self).internal.focus,
            final(self).internal.mods_state == spec_mods_state_of(final(self).internal.xkb.state),
            spec_engine_step(old(self).internal.xkb.state, final(self).internal.xkb.state,
                keycode, state),
            match r {
                Some(v) => {
                    &&& call_ensures(filter, (final(self).internal.mods_state,
                        final(self).internal.xkb.state.spec_modified_sym(keycode), keycode),
                        FilterResult::Intercept(v))
                    &&& final(self).internal.spec_forwarded() == if state == KeyState::Released {
                        old(self).internal.spec_forwarded().remove(keycode)
                    } else {
                        old(self).internal.spec_forwarded()
                    }
                    &&& final(self).events@ == old(self).events@ + spec_led_change_events(
                        old(self).internal.led_state, final(self).internal.led_state)
                },
                None => {
                    &&& call_ensures(filter, (final(self).internal.mods_state,
                        final(self).internal.xkb.state.spec_modified_sym(keycode), keycode),
                        FilterResult::<T>::Forward)
                    &&& final(self).internal.spec_forwarded() == if state == KeyState::Pressed {
                        old(self).internal.spec_forwarded().insert(keycode)
                    } else {
                        old(self).internal.spec_forwarded().remove(keycode)
                    }
                    &&& final(self).events@ == old(self).events@ + spec_led_change_events(
                        old(self).internal.led_state, final(self).internal.led_state) + (
                    match old(self).internal.focus {
                        Some((f, fs)) => seq![KeyboardEvent::Key {
                            target: f,
                            keycode,
                            state,
                            serial,
                            time,
                        }] + (if final(self).internal.mods_state != old(
                            self).internal.mods_state {
                            seq![KeyboardEvent::Modifiers {
                                target: f,
                                mods: final(self).internal.mods_state,
                                serial,
                            }]
                        } else {
                            Seq::empty()
                        }),
                        None => Seq::empty(),
                    })
                },
            },
    {
        let (filter_result, mods_changed) = self.input_intercept(keycode, state, filter);
        match filter_result {
            FilterResult::Intercept(val) => Some(val),
            FilterResult::Forward => {
                let ghost mid = *self;
                self.input_forward(keycode, state, serial, time, mods_changed);
                proof {
                    let led_part = spec_led_change_events(old(self).internal.led_state,
                        mid.internal.led_state);
                    assert(mid.internal.led_state == final(self).internal.led_state);
                    match old(self).internal.focus {
                        Some((f, fs)) => {
                            if mods_changed {
                                assert(final(self).events@ =~= old(self).events@ + led_part
                                    + (seq![KeyboardEvent::Key {
                                    target: f,
                                    keycode,
                                    state,
                                    serial,
                                    time,
                                }] + seq![KeyboardEvent::Modifiers {
                                    target: f,
                                    mods: final(self).internal.mods_state,
                                    serial,
                                }]));
                            } else {
                                assert(final(self).events@ =~= old(self).events@ + led_part
                                    + (seq![KeyboardEvent::Key {
                                    target: f,
                                    keycode,
                                    state,
                                    serial,
                                    time,
                                }] + Seq::<KeyboardEvent>::empty()));
                            }
                        },
                        None => {
                            assert(final(self).events@ =~= old(self).events@ + led_part
                                + Seq::<KeyboardEvent>::empty());
                        },
                    }
                }
                None
            },
        }
    }
}

/// The keymap pushes sent to a list of client keyboard objects: one per
/// object that is still alive, in order, all carrying the same version.
pub open spec fn spec_keymap_push_events(kbds: Seq<KbdResource>, id: u64) -> Seq<KeyboardEvent>
    decreases kbds.len(),
{
    if kbds.len() == 0 {
        Seq::empty()
    } else {
        spec_keymap_push_events(kbds.drop_last(), id) + (if kbds.last().alive {
            seq![KeyboardEvent::KeymapSent { kbd: kbds.last().id, keymap_id: id }]
        } else {
            Seq::empty()
        })
    }
}

/// A keymap push is uniform and complete: every event it records
/// carries the one pushed version, and every still-alive client
/// keyboard object receives such a push — so a replace, whose event
/// clause on [`KeyboardHandle::change_keymap`] appends exactly this
/// sequence under the final export's id, is never delivered
/// half-updated to anyone, late-registered objects included.
pub proof fn lemma_keymap_push_uniform(kbds: Seq<KbdResource>, id: u64)
    ensures
        forall|i: int|
            0 <= i < spec_keymap_push_events(kbds, id).len() ==> exists|kbd: u64|
                #[trigger] spec_keymap_push_events(kbds, id)[i] == (KeyboardEvent::KeymapSent {
                    kbd,
                    keymap_id: id,
                }),
        forall|j: int|
            0 <= j < kbds.len() && (#[trigger] kbds[j]).alive ==> exists|i: int|
                0 <= i < spec_keymap_push_events(kbds, id).len()
                    && spec_keymap_push_events(kbds, id)[i] == (KeyboardEvent::KeymapSent {
                    kbd: kbds[j].id,
                    keymap_id: id,
                }),
    decreases kbds.len(),
{
    if kbds.len() > 0 {
        lemma_keymap_push_uniform(kbds.drop_last(), id);
        let prev = spec_keymap_push_events(kbds.drop_last(), id);
        let whole = spec_keymap_push_events(kbds, id);
        assert forall|i: int|
            0 <= i < whole.len() implies exists|kbd: u64| #[trigger] whole[i] == (
        KeyboardEvent::KeymapSent { kbd, keymap_id: id }) by {
            if i < prev.len() {
                assert(whole[i] == prev[i]);
                let kbd = choose|kbd: u64|
                    prev[i] == (KeyboardEvent::KeymapSent { kbd, keymap_id: id });
                assert(whole[i] == (KeyboardEvent::KeymapSent { kbd, keymap_id: id }));
            } else {
                assert(kbds.last().alive);
                assert(whole[i] == (KeyboardEvent::KeymapSent {
                    kbd: kbds.last().id,
                    keymap_id: id,
                }));
            }
        };
        assert forall|j: int|
            0 <= j < kbds.len() && (#[trigger] kbds[j]).alive implies exists|i: int|
            0 <= i < whole.len() && whole[i] == (KeyboardEvent::KeymapSent {
                kbd: kbds[j].id,
                keymap_id: id,
            }) by {
            if j < kbds.len() - 1 {
                assert(kbds.drop_last()[j] == kbds[j]);
                let i = choose|i: int|
                    0 <= i < prev.len() && prev[i] == (KeyboardEvent::KeymapSent {
                        kbd: kbds.drop_last()[j].id,
                        keymap_id: id,
                    });
                assert(whole[i] == prev[i]);
            } else {
                assert(kbds[j] == kbds.last());
                assert(whole[prev.len() as int] == (KeyboardEvent::KeymapSent {
                    kbd: kbds.last().id,
                    keymap_id: id,
                }));
            }
        };
    }
}

/// The client keyboard objects after a push of version `id`: every
/// still-alive object now holds that version; a disconnected one keeps
/// what it last saw.
pub open spec fn spec_kbds_after_push(kbds: Seq<KbdResource>, id: u64) -> Seq<KbdResource> {
    kbds.map_values(|k: KbdResource| if k.alive {
        KbdResource { last_keymap: id, ..k }
    } else {
        k
    })
}

/// The modifiers events sent to the focus after a keymap push.
pub open spec fn spec_focus_mods_events(
    focus: Option<(u64, Serial)>,
    mods: ModifiersState,
    serial: Serial,
) -> Seq<KeyboardEvent> {
    match focus {
        Some((f, fs)) => seq![KeyboardEvent::Modifiers { target: f, mods, serial }],
        None => Seq::empty(),
    }
}

impl KeyboardHandle {
    /// Push the current keymap export to every still-alive client
    /// keyboard object, then send the focus updated modifiers under a
    /// fresh serial. A request that does not change the keymap version is
    /// ignored. Returns whether anything was pushed.
    fn send_keymap(&mut self, serials: &mut SerialCounter) -> (r: bool)
        requires
            old(self).internal.wf(),
            !(old(self).internal.grab is Borrowed),
            old(self).keymap_file.id < old(self).next_keymap_id,
            forall|i: int|
                0 <= i < old(self).known_kbds@.len() ==> ((
                #[trigger] old(self).known_kbds@[i]).alive
                    ==> old(self).known_kbds@[i].last_keymap == old(self).active_keymap),
            old(serials).next < u64::MAX,
        ensures
            final(self).wf(),
            r == (old(self).keymap_file.id != old(self).active_keymap),
            final(self).internal == old(self).internal,
            final(self).keymap_file == old(self).keymap_file,
            final(self).last_enter == old(self).last_enter,
            final(self).next_keymap_id == old(self).next_keymap_id,
            final(self).active_keymap == old(self).keymap_file.id,
            if r {
                final(self).known_kbds@ == spec_kbds_after_push(old(self).known_kbds@,
                    old(self).keymap_file.id) && final(self).events@ == old(self).events@
                    + spec_keymap_push_events(old(self).known_kbds@, old(self).keymap_file.id)
                    + spec_focus_mods_events(old(self).internal.focus,
                    old(self).internal.mods_state, Serial { value: old(serials).next })
            } else {
                final(self).known_kbds == old(self).known_kbds && final(self).events@ == old(
                    self).events@
            },
            if r && old(self).internal.focus is Some {
                final(serials).next == old(serials).next + 1
            } else {
                final(serials).next == old(serials).next
            },
    {
        let id = self.keymap_file.id();
        if id == self.active_keymap {
            return false;
        }
        self.active_keymap = id;
        let ghost kbds = old(self).known_kbds@;
        let ghost base = self.events@;
        let mut i: usize = 0;
        proof {
            assert(kbds.take(0).len() == 0);
            assert(base =~= base + spec_keymap_push_events(kbds.take(0), id));
        }
        while i < self.known_kbds.len()
            invariant
                kbds == old(self).known_kbds@,
                self.known_kbds@.len() == kbds.len(),
                i <= kbds.len(),
                forall|j: int|
                    0 <= j < i ==> #[trigger] self.known_kbds@[j] == (if kbds[j].alive {
                        KbdResource { last_keymap: id, ..kbds[j] }
                    } else {
                        kbds[j]
                    }),
                forall|j: int| i <= j < kbds.len() ==> #[trigger] self.known_kbds@[j] == kbds[j],
                self.events@ == base + spec_keymap_push_events(kbds.take(i as int), id),
                *self == (KeyboardHandle {
                    active_keymap: self.active_keymap,
                    events: self.events,
                    known_kbds: self.known_kbds,
                    ..*old(self)
                }),
                self.active_keymap == id,
                id == old(self).keymap_file.id,
            decreases kbds.len() - i,
        {
            let kbd = self.known_kbds[i];
            if kbd.alive {
                self.events.push(KeyboardEvent::KeymapSent { kbd: kbd.id, keymap_id: id });
                self.known_kbds.set(i, KbdResource { last_keymap: id, ..kbd });
            }
            proof {
                assert(kbds.take(i + 1).drop_last() =~= kbds.take(i as int));
                assert(kbds.take(i + 1).last() == kbds[i as int]);
                if kbds[i as int].alive {
                    assert(self.events@ =~= base + spec_keymap_push_events(kbds.take(i + 1), id));
                } else {
                    assert(spec_keymap_push_events(kbds.take(i + 1), id)
                        =~= spec_keymap_push_events(kbds.take(i as int), id));
                }
            }
            i = i + 1;
        }
        proof {
            assert(kbds.take(kbds.len() as int) =~= kbds);
            assert(self.known_kbds@ =~= spec_kbds_after_push(kbds, id));
        }
        match self.internal.focus {
            Some((f, _)) => {
                let serial = serials.next_serial();
                self.events.push(KeyboardEvent::Modifiers {
                    target: f,
                    mods: self.internal.mods_state,
                    serial,
                });
                proof {
                    assert(self.events@ =~= old(self).events@ + spec_keymap_push_events(kbds, id)
                        + spec_focus_mods_events(old(self).internal.focus,
                        old(self).internal.mods_state, Serial { value: old(serials).next }));
                }
            },
            None => {
                proof {
                    assert(self.events@ =~= old(self).events@ + spec_keymap_push_events(kbds, id)
                        + spec_focus_mods_events(old(self).internal.focus,
                        old(self).internal.mods_state, Serial { value: old(serials).next }));
                }
            },
        }
        true
    }

    /// Export the engine's current keymap under a fresh version id and
    /// push it to every still-alive client keyboard object; the focus is
    /// then sent updated modifiers. Later exports carry greater ids, and
    /// every client receives the same final version.
    pub fn change_keymap(&mut self, serials: &mut SerialCounter)
        requires
            old(self).wf(),
            old(self).next_keymap_id < u64::MAX,
            old(serials).next < u64::MAX,
        ensures
            final(self).wf(),
            final(self).internal == old(self).internal,
            final(self).keymap_file.keymap@ == old(self).internal.xkb.state.keymap.text@,
            old(self).keymap_file.id < final(self).keymap_file.id,
            final(self).active_keymap == final(self).keymap_file.id,
            final(self).known_kbds@ == spec_kbds_after_push(old(self).known_kbds@,
                final(self).keymap_file.id),
            final(self).last_enter == old(self).last_enter,
            final(self).events@ == old(self).events@ + spec_keymap_push_events(
                old(self).known_kbds@, final(self).keymap_file.id) + spec_focus_mods_events(
                old(self).internal.focus, old(self).internal.mods_state,
                Serial { value: old(serials).next }),
    {
        let id = self.next_keymap_id;
        self.next_keymap_id = id + 1;
        self.keymap_file.change_keymap(&self.internal.xkb.state.keymap, id);
        self.send_keymap(serials);
    }

    /// Replace the compiled keymap wholesale, replaying every currently
    /// pressed key into the fresh state so that the keyboard still
    /// reports the same keys as held and the modifier flags are
    /// recomputed consistently with them; then export and push the new
    /// keymap to every still-alive client.
    pub fn set_keymap(&mut self, serials: &mut SerialCounter, keymap: KeymapModel)
        requires
            old(self).wf(),
            keymap.wf(),
            old(self).next_keymap_id < u64::MAX,
            old(serials).next < u64::MAX,
        ensures
            final(self).wf(),
            final(self).internal.xkb.state.keymap == keymap,
            final(self).internal.xkb.state.pressed.seq_view() == old(
                self).internal.xkb.state.pressed.seq_view(),
            final(self).internal.spec_pressed() == old(self).internal.spec_pressed(),
            final(self).internal.mods_state == spec_mods_state_of(final(self).internal.xkb.state),
            final(self).internal.forwarded_pressed_keys == old(
                self).internal.forwarded_pressed_keys,
            final(self).internal.focus == old(self).internal.focus,
            final(self).internal.grab == old(self).internal.grab,
            final(self).internal.led_mapping == (LedMapping {
                num: keymap.leds.num,
                caps: keymap.leds.caps,
                scroll: keymap.leds.scroll,
            }),
            final(self).internal.xkb.state.locked == spec_replay_locked(keymap,
                old(self).internal.xkb.state.pressed.seq_view()),
            final(self).internal.xkb.state.locked_layout == 0u32,
            final(self).keymap_file.keymap@ == keymap.text@,
            old(self).keymap_file.id < final(self).keymap_file.id,
            final(self).active_keymap == final(self).keymap_file.id,
            final(self).known_kbds@ == spec_kbds_after_push(old(self).known_kbds@,
                final(self).keymap_file.id),
            final(self).last_enter == old(self).last_enter,
            final(self).events@ == old(self).events@ + spec_keymap_push_events(
                old(self).known_kbds@, final(self).keymap_file.id) + spec_focus_mods_events(
                old(self).internal.focus, final(self).internal.mods_state,
                Serial { value: old(serials).next }) + spec_led_change_events(
                old(self).internal.led_state, final(self).internal.led_state),
    {
        let old_keys = self.internal.xkb.state.pressed.to_vec();
        let ghost s = old_keys@;
        let mut new_state = XkbState::new(keymap);
        let mut i: usize = 0;
        proof {
            assert(s.take(0) =~= new_state.pressed.seq_view());
            assert(forall|j: int, k: int| 0 <= j < k < s.len() ==> s[j] != s[k]);
        }
        while i < old_keys.len()
            invariant
                s == old_keys@,
                i <= s.len(),
                forall|j: int, k: int| 0 <= j < k < s.len() ==> s[j] != s[k],
                new_state.wf(),
                new_state.keymap == keymap,
                keymap.wf(),
                new_state.pressed.seq_view() == s.take(i as int),
                new_state.locked == spec_replay_locked(keymap, s.take(i as int)),
                new_state.locked_layout == 0u32,
            decreases s.len() - i,
        {
            proof {
                if s.take(i as int).to_set().contains(s[i as int]) {
                    let j = choose|j: int|
                        0 <= j < i && s.take(i as int)[j] == s[i as int];
                    assert(s[j] == s[i as int]);
                    assert(false);
                }
            }
            let _ = new_state.update_key(old_keys[i], true);
            proof {
                assert(new_state.pressed.seq_view() =~= s.take(i + 1));
                assert(s.take(i + 1).drop_last() =~= s.take(i as int));
                assert(s.take(i + 1).last() == s[i as int]);
            }
            i = i + 1;
        }
        proof {
            assert(s.take(s.len() as int) =~= s);
        }
        self.internal.led_mapping = LedMapping::from_keymap(&new_state.keymap);
        self.internal.mods_state.update_with(&new_state);
        let leds_changed = self.internal.led_state.update_with(
            &new_state,
            &self.internal.led_mapping,
        );
        self.internal.xkb.state = new_state;
        let ghost mid = *self;
        self.change_keymap(serials);
        if leds_changed {
            self.events.push(KeyboardEvent::LedsChanged { leds: self.internal.led_state });
        }
        proof {
            let pushed = old(self).events@ + spec_keymap_push_events(old(self).known_kbds@,
                final(self).keymap_file.id) + spec_focus_mods_events(old(self).internal.focus,
                final(self).internal.mods_state, Serial { value: old(serials).next });
            assert(final(self).events@ =~= pushed + spec_led_change_events(
                old(self).internal.led_state, final(self).internal.led_state));
        }
    }
}

/// Handle to a keycode under a live engine state, for the different
/// symbol conversions.
pub struct KeysymHandle<'a> {
    /// The engine the conversions read.
    pub xkb: &'a Xkb,
    /// The physical key code.
    pub keycode: u32,
}

impl<'a> KeysymHandle<'a> {
    /// The engine this handle reads.
    pub fn xkb(&self) -> (r: &'a Xkb)
        ensures
            r == self.xkb,
    {
        self.xkb
    }

    /// The symbol of the key with the current state's modifications
    /// applied; the no-symbol value when the key does not produce exactly
    /// one symbol.
    pub fn modified_sym(&self) -> (r: u32)
        requires
            self.xkb.state.keymap.wf(),
        ensures
            r == self.xkb.state.spec_modified_sym(self.keycode),
    {
        self.xkb.state.key_get_one_sym(self.keycode)
    }

    /// The symbols of the key with the current state's level applied.
    pub fn modified_syms(&self) -> (r: Vec<u32>)
        requires
            self.xkb.state.keymap.wf(),
        ensures
            r@ == self.xkb.state.spec_modified_syms(self.keycode),
    {
        self.xkb.state.key_get_syms(self.keycode)
    }

    /// The base-level symbols of the key in the effective layout, without
    /// the current state's modifications.
    pub fn raw_syms(&self) -> (r: Vec<u32>)
        requires
            self.xkb.state.keymap.wf(),
        ensures
            r@ == crate::xkb::spec_raw_syms(self.xkb.state.keymap,
                self.xkb.state.spec_effective_layout(), self.keycode),
    {
        let layout = self.xkb.state.key_get_layout(self.keycode);
        crate::xkb::raw_syms_in_layout(&self.xkb.state.keymap, layout, self.keycode)
    }

    /// The raw latin symbol, or the raw current symbol as a fallback, for
    /// layout-agnostic shortcut matching.
    pub fn raw_latin_sym_or_raw_current_sym(&self) -> (r: Option<u32>)
        requires
            self.xkb.state.keymap.wf(),
        ensures
            r == self.xkb.state.spec_raw_latin_sym_or_raw_current_sym(self.keycode),
    {
        self.xkb.state.raw_latin_sym_or_raw_current_sym(self.keycode)
    }

    /// The raw key code.
    pub fn raw_code(&self) -> (r: u32)
        ensures
            r == self.keycode,
    {
        self.keycode
    }
}

impl KeyboardHandle {
    /// A conversion handle for `keycode` under the current state.
    pub fn keysym_handle(&self, keycode: u32) -> (r: KeysymHandle<'_>)
        ensures
            r.keycode == keycode,
            r.xkb == &self.internal.xkb,
    {
        KeysymHandle { xkb: &self.internal.xkb, keycode }
    }

    /// Conversion handles for the currently pressed keys, in order.
    pub fn with_pressed_keysyms(&self) -> (r: Vec<KeysymHandle<'_>>)
        ensures
            r@.len() == self.internal.xkb.state.pressed.seq_view().len(),
            forall|i: int| 0 <= i < r@.len() ==> #[trigger] r@[i].keycode
                == self.internal.xkb.state.pressed.seq_view()[i],
    {
        let n = self.internal.xkb.state.pressed.len();
        let mut r: Vec<KeysymHandle<'_>> = Vec::new();
        let mut i: usize = 0;
        while i < n
            invariant
                n == self.internal.xkb.state.pressed.seq_view().len(),
                i <= n,
                r@.len() == i,
                forall|j: int| 0 <= j < i ==> #[trigger] r@[j].keycode
                    == self.internal.xkb.state.pressed.seq_view()[j],
            decreases n - i,
        {
            let keycode = self.internal.xkb.state.pressed.index(i);
            r.push(KeysymHandle { xkb: &self.internal.xkb, keycode });
            i = i + 1;
        }
        r
    }

    /// Switch the layout forward, cycling at the end, and send the focus
    /// updated modifiers under a fresh serial if the effective layout
    /// changed.
    pub fn cycle_next_layout(&mut self, serials: &mut SerialCounter)
        requires
            old(self).wf(),
            old(serials).next < u64::MAX,
        ensures
            final(self).wf(),
            old(self).internal.xkb.state.keymap.layouts@.len() > 0
                ==> final(self).internal.xkb.state.locked_layout as int == (
                old(self).internal.xkb.state.spec_effective_layout() + 1) % (
                old(self).internal.xkb.state.keymap.layouts@.len() as int),
            final(self).internal.xkb.state.keymap == old(self).internal.xkb.state.keymap,
            final(self).internal.xkb.state.pressed == old(self).internal.xkb.state.pressed,
            final(self).internal.focus == old(self).internal.focus,
            final(self).internal.mods_state == spec_mods_state_of(final(self).internal.xkb.state),
            spec_layout_broadcast_post(*old(self), *final(self), Serial {
                value: old(serials).next,
            }),
    {
        let changed = self.internal.xkb.state.cycle_next_layout();
        self.broadcast_layout_change(serials, changed);
    }

    /// Switch the layout backward, cycling at the start, and send the
    /// focus updated modifiers under a fresh serial if the effective
    /// layout changed.
    pub fn cycle_prev_layout(&mut self, serials: &mut SerialCounter)
        requires
            old(self).wf(),
            old(serials).next < u64::MAX,
        ensures
            final(self).wf(),
            old(self).internal.xkb.state.keymap.layouts@.len() > 0
                ==> final(self).internal.xkb.state.locked_layout as int == (
                old(self).internal.xkb.state.keymap.layouts@.len() as int
                + old(self).internal.xkb.state.spec_effective_layout() - 1) % (
                old(self).internal.xkb.state.keymap.layouts@.len() as int),
            final(self).internal.xkb.state.keymap == old(self).internal.xkb.state.keymap,
            final(self).internal.xkb.state.pressed == old(self).internal.xkb.state.pressed,
            final(self).internal.focus == old(self).internal.focus,
            final(self).internal.mods_state == spec_mods_state_of(final(self).internal.xkb.state),
            spec_layout_broadcast_post(*old(self), *final(self), Serial {
                value: old(serials).next,
            }),
    {
        let changed = self.internal.xkb.state.cycle_prev_layout();
        self.broadcast_layout_change(serials, changed);
    }

    /// Set the layout to the given index and send the focus updated
    /// modifiers under a fresh serial if the effective layout changed.
    pub fn set_layout(&mut self, serials: &mut SerialCounter, layout: crate::xkb::Layout)
        requires
            old(self).wf(),
            old(serials).next < u64::MAX,
        ensures
            final(self).wf(),
            final(self).internal.xkb.state.locked_layout == layout.0,
            final(self).internal.xkb.state.keymap == old(self).internal.xkb.state.keymap,
            final(self).internal.xkb.state.pressed == old(self).internal.xkb.state.pressed,
            final(self).internal.focus == old(self).internal.focus,
            final(self).internal.mods_state == spec_mods_state_of(final(self).internal.xkb.state),
            spec_layout_broadcast_post(*old(self), *final(self), Serial {
                value: old(serials).next,
            }),
    {
        let changed = self.internal.xkb.state.set_layout(layout);
        self.broadcast_layout_change(serials, changed);
    }

    /// After a layout change, recompute the modifier state and tell the
    /// focus, and record an LED change if one followed.
    fn broadcast_layout_change(&mut self, serials: &mut SerialCounter, changed: bool)
        requires
            old(self).internal.xkb.state.wf(),
            old(self).internal.forwarded_pressed_keys.wf(),
            !(old(self).internal.grab is Borrowed),
            old(self).keymap_file.id < old(self).next_keymap_id,
            old(self).active_keymap == old(self).keymap_file.id,
            forall|i: int|
                0 <= i < old(self).known_kbds@.len() ==> ((
                #[trigger] old(self).known_kbds@[i]).alive
                    ==> old(self).known_kbds@[i].last_keymap == old(self).active_keymap),
            old(serials).next < u64::MAX,
        ensures
            final(self).wf(),
            final(self).internal.xkb.state == old(self).internal.xkb.state,
            final(self).internal.focus == old(self).internal.focus,
            final(self).internal.mods_state == spec_mods_state_of(final(self).internal.xkb.state),
            spec_layout_broadcast_post(*old(self), *final(self), Serial {
                value: old(serials).next,
            }),
    {
        let old_mods = self.internal.mods_state;
        self.internal.mods_state.update_with(&self.internal.xkb.state);
        let mods_changed = self.internal.mods_state != old_mods;
        let ghost n = self.events@.len() as int;
        if mods_changed {
            match self.internal.focus {
                Some((f, _)) => {
                    let serial = serials.next_serial();
                    self.events.push(KeyboardEvent::Modifiers {
                        target: f,
                        mods: self.internal.mods_state,
                        serial,
                    });
                },
                None => {},
            }
        }
        let leds_changed = self.internal.led_state.update_with(
            &self.internal.xkb.state,
            &self.internal.led_mapping,
        );
        if leds_changed {
            self.events.push(KeyboardEvent::LedsChanged { leds: self.internal.led_state });
        }
        proof {
            assert(self.events@.take(n) =~= old(self).events@);
            if self.internal.mods_state != old(self).internal.mods_state
                && old(self).internal.focus is Some {
                assert(is_modifiers(self.events@[n], old(self).internal.focus->Some_0.0,
                    self.internal.mods_state, Serial { value: old(serials).next }));
            }
        }
        let _ = changed;
    }
}

/// After a layout operation the prior event log is preserved, and when
/// the modifier state changed and a focus exists, a modifiers event for
/// that focus under the freshly minted serial stands among the appended
/// events.
pub open spec fn spec_layout_broadcast_post(
    pre: KeyboardHandle,
    post: KeyboardHandle,
    serial: Serial,
) -> bool {
    let n = pre.events@.len() as int;
    &&& post.events@.take(n) == pre.events@
    &&& (post.internal.mods_state != pre.internal.mods_state && pre.internal.focus is Some
        ==> exists|i: int|
            n <= i < post.events@.len() && is_modifiers(#[trigger] post.events@[i],
                pre.internal.focus->Some_0.0, post.internal.mods_state, serial))
}

/// Forwarded keys stay a subset of pressed keys, over every keystroke
/// fed through [`KeyboardHandle::input`], forwarded or swallowed: a
/// press can only add to the forwarded set when it also enters the
/// pressed set, and a release leaves both sets whether or not the
/// filter swallowed it. The set relations required here are exactly the
/// ones `input` ensures for its two results.
pub proof fn lemma_forwarded_subset_preserved(
    pressed_before: Set<u32>,
    forwarded_before: Set<u32>,
    pressed_after: Set<u32>,
    forwarded_after: Set<u32>,
    keycode: u32,
    down: bool,
    forwarded: bool,
)
    requires
        forwarded_before.subset_of(pressed_before),
        pressed_after == if down {
            pressed_before.insert(keycode)
        } else {
            pressed_before.remove(keycode)
        },
        forwarded_after == if down {
            if forwarded {
                forwarded_before.insert(keycode)
            } else {
                forwarded_before
            }
        } else {
            forwarded_before.remove(keycode)
        },
    ensures
        forwarded_after.subset_of(pressed_after),
{
    assert forall|k: u32| forwarded_after.contains(k) implies pressed_after.contains(k) by {
        if k != keycode {
            assert(forwarded_before.contains(k));
        }
    };
}

/// Every still-connected keyboard object holds the current keymap
/// export: registration pushes the current version at once, and every
/// replacement pushes the new one, so no key event is ever delivered to
/// an object with a stale or half-updated keymap.
pub proof fn lemma_alive_kbds_hold_current_keymap(kb: KeyboardHandle)
    requires
        kb.wf(),
    ensures
        forall|i: int|
            0 <= i < kb.known_kbds@.len() ==> ((#[trigger] kb.known_kbds@[i]).alive
                ==> kb.known_kbds@[i].last_keymap == kb.keymap_file.id),
{
}

/// Focus idempotence: setting the focus a keyboard already has, under any
/// later serial, produces no traffic on the second call.
pub proof fn lemma_focus_idempotent(
    s0: KeyboardHandle,
    s1: KeyboardHandle,
    s2: KeyboardHandle,
    f: u64,
    serial1: Serial,
    serial2: Serial,
)
    requires
        spec_set_focus_post(s0, s1, Some(f), serial1),
        spec_set_focus_post(s1, s2, Some(f), serial2),
    ensures
        s2.events@ == s1.events@,
        s2.last_enter == s1.last_enter,
{
}

/// Ordering on focus change: when focus moves from `a` to `b`, the
/// recorded order is exactly leave of `a`, enter of `b`, modifiers of
/// `b` — never modifiers before enter — all under one serial.
pub proof fn lemma_focus_change_ordering(
    pre: KeyboardHandle,
    post: KeyboardHandle,
    a: u64,
    enter_serial: Serial,
    b: u64,
    serial: Serial,
)
    requires
        pre.internal.focus == Some((a, enter_serial)),
        a != b,
        spec_set_focus_post(pre, post, Some(b), serial),
    ensures
        post.events@.len() == pre.events@.len() + 3,
        is_leave(post.events@[pre.events@.len() as int], a, serial),
        is_enter(post.events@[pre.events@.len() as int + 1], b, serial,
            pre.internal.forwarded_pressed_keys.seq_view()),
        is_modifiers(post.events@[pre.events@.len() as int + 2], b, pre.internal.mods_state, serial),
{
}

} // verus!
