//! The XKB keymap engine model: a compiled keyboard layout as plain data,
//! and a live state advanced by individual key-down/key-up events. The
//! state tracks depressed and locked modifier masks and the locked layout;
//! symbol lookup applies the shift level and the caps-lock letter rule.
//!
//! Modifier masks use the X11 bit order: shift, lock, control, mod1..mod5.
//! A key's modifier role is read from its base-level symbols in the first
//! layout; lock-style symbols (caps, num, scroll) toggle the locked mask on
//! key-down.

use vstd::prelude::*;
use crate::keyset::KeySet;

verus! {

/// Shift modifier mask bit.
pub const MOD_MASK_SHIFT: u32 = 0x01;
/// Caps-lock (Lock) modifier mask bit.
pub const MOD_MASK_LOCK: u32 = 0x02;
/// Control modifier mask bit.
pub const MOD_MASK_CONTROL: u32 = 0x04;
/// Mod1 (alt) modifier mask bit.
pub const MOD_MASK_MOD1: u32 = 0x08;
/// Mod2 (num-lock) modifier mask bit.
pub const MOD_MASK_MOD2: u32 = 0x10;
/// Mod3 (level-5 shift, scroll-lock) modifier mask bit.
pub const MOD_MASK_MOD3: u32 = 0x20;
/// Mod4 (logo) modifier mask bit.
pub const MOD_MASK_MOD4: u32 = 0x40;
/// Mod5 (level-3 shift) modifier mask bit.
pub const MOD_MASK_MOD5: u32 = 0x80;

/// The left shift keysym.
pub const KEYSYM_SHIFT_L: u32 = 0xffe1;
/// The right shift keysym.
pub const KEYSYM_SHIFT_R: u32 = 0xffe2;
/// The left control keysym.
pub const KEYSYM_CONTROL_L: u32 = 0xffe3;
/// The right control keysym.
pub const KEYSYM_CONTROL_R: u32 = 0xffe4;
/// The caps-lock keysym.
pub const KEYSYM_CAPS_LOCK: u32 = 0xffe5;
/// The left meta keysym.
pub const KEYSYM_META_L: u32 = 0xffe7;
/// The right meta keysym.
pub const KEYSYM_META_R: u32 = 0xffe8;
/// The left alt keysym.
pub const KEYSYM_ALT_L: u32 = 0xffe9;
/// The right alt keysym.
pub const KEYSYM_ALT_R: u32 = 0xffea;
/// The left logo keysym.
pub const KEYSYM_SUPER_L: u32 = 0xffeb;
/// The right logo keysym.
pub const KEYSYM_SUPER_R: u32 = 0xffec;
/// The num-lock keysym.
pub const KEYSYM_NUM_LOCK: u32 = 0xff7f;
/// The scroll-lock keysym.
pub const KEYSYM_SCROLL_LOCK: u32 = 0xff14;
/// The level-3 shift keysym.
pub const KEYSYM_ISO_LEVEL3_SHIFT: u32 = 0xfe03;
/// The level-5 shift keysym.
pub const KEYSYM_ISO_LEVEL5_SHIFT: u32 = 0xfe11;
/// The keysym returned when a key produces no single symbol.
pub const KEYSYM_NO_SYMBOL: u32 = 0;

/// First code point of the direct-unicode keysym range.
pub const KEYSYM_UNICODE_BASE: u32 = 0x01000000;
/// Last keysym of the direct-unicode keysym range.
pub const KEYSYM_UNICODE_LAST: u32 = 0x0110ffff;

/// The depressed-modifier mask bit a held key with this symbol contributes.
pub open spec fn spec_modifier_bit(sym: u32) -> u32 {
    if sym == KEYSYM_SHIFT_L || sym == KEYSYM_SHIFT_R {
        MOD_MASK_SHIFT
    } else if sym == KEYSYM_CONTROL_L || sym == KEYSYM_CONTROL_R {
        MOD_MASK_CONTROL
    } else if sym == KEYSYM_ALT_L || sym == KEYSYM_ALT_R || sym == KEYSYM_META_L
        || sym == KEYSYM_META_R {
        MOD_MASK_MOD1
    } else if sym == KEYSYM_SUPER_L || sym == KEYSYM_SUPER_R {
        MOD_MASK_MOD4
    } else if sym == KEYSYM_ISO_LEVEL3_SHIFT {
        MOD_MASK_MOD5
    } else if sym == KEYSYM_ISO_LEVEL5_SHIFT {
        MOD_MASK_MOD3
    } else {
        0
    }
}

/// The locked-modifier mask bit a press of a key with this symbol toggles.
pub open spec fn spec_lock_bit(sym: u32) -> u32 {
    if sym == KEYSYM_CAPS_LOCK {
        MOD_MASK_LOCK
    } else if sym == KEYSYM_NUM_LOCK {
        MOD_MASK_MOD2
    } else if sym == KEYSYM_SCROLL_LOCK {
        MOD_MASK_MOD3
    } else {
        0
    }
}

/// The character code a keysym stands for, if any: printable ASCII keysyms
/// are their own code, and the direct-unicode range maps to its code point.
pub open spec fn spec_keysym_char_code(sym: u32) -> Option<u32> {
    if 0x20 <= sym && sym <= 0x7e {
        Some(sym)
    } else if KEYSYM_UNICODE_BASE <= sym && sym <= KEYSYM_UNICODE_LAST {
        Some((sym - KEYSYM_UNICODE_BASE) as u32)
    } else {
        None
    }
}

/// Whether a character code is ASCII.
pub open spec fn spec_is_ascii_code(c: u32) -> bool {
    c < 0x80
}

/// Whether a character code is an ASCII control character.
pub open spec fn spec_is_ascii_control(c: u32) -> bool {
    c < 0x20 || c == 0x7f
}

/// The character code a keysym stands for, if any.
pub fn keysym_char_code(sym: u32) -> (r: Option<u32>)
    ensures
        r == spec_keysym_char_code(sym),
{
    if 0x20 <= sym && sym <= 0x7e {
        Some(sym)
    } else if KEYSYM_UNICODE_BASE <= sym && sym <= KEYSYM_UNICODE_LAST {
        Some(sym - KEYSYM_UNICODE_BASE)
    } else {
        None
    }
}

/// One physical key of one layout: its symbols, one list per shift level.
#[derive(Clone, Debug)]
pub struct KeyMapping {
    /// The physical key code.
    pub keycode: u32,
    /// The symbols the key produces, indexed by shift level.
    pub levels: Vec<Vec<u32>>,
}

/// One layout of a keymap.
#[derive(Clone, Debug)]
pub struct LayoutDef {
    /// The layout's human readable name.
    pub name: String,
    /// The key mappings of this layout.
    pub keys: Vec<KeyMapping>,
}

/// Which locked-modifier masks drive the three well-known LEDs, as declared
/// by the keymap. A LED that the keymap does not define is `None`.
#[derive(Clone, Copy, Debug)]
pub struct LedDefs {
    /// The locked mask driving the num-lock LED.
    pub num: Option<u32>,
    /// The locked mask driving the caps-lock LED.
    pub caps: Option<u32>,
    /// The locked mask driving the scroll-lock LED.
    pub scroll: Option<u32>,
}

/// A compiled keyboard layout as plain data, together with the textual
/// form in which clients receive it.
#[derive(Clone, Debug)]
pub struct KeymapModel {
    /// The layouts, in order; the active layout cycles over these.
    pub layouts: Vec<LayoutDef>,
    /// The LED declarations.
    pub leds: LedDefs,
    /// The serialized textual form of the keymap, sent to clients.
    pub text: String,
}

/// Reference to a layout in the active keymap.
#[derive(Default, Debug, Clone, Copy, PartialEq, Eq, Structural)]
pub struct Layout(pub u32);

/// The first mapping for `kc` in `keys`, if any.
pub open spec fn spec_find_key(keys: Seq<KeyMapping>, kc: u32) -> Option<KeyMapping>
    decreases keys.len(),
{
    if keys.len() == 0 {
        None
    } else if keys[0].keycode == kc {
        Some(keys[0])
    } else {
        spec_find_key(keys.drop_first(), kc)
    }
}

proof fn lemma_find_key_skip(keys: Seq<KeyMapping>, kc: u32, i: int)
    requires
        0 <= i <= keys.len(),
        forall|j: int| 0 <= j < i ==> keys[j].keycode != kc,
    ensures
        spec_find_key(keys, kc) == spec_find_key(keys.skip(i), kc),
    decreases i,
{
    if i > 0 {
        lemma_find_key_skip(keys.drop_first(), kc, i - 1);
        assert(keys.drop_first().skip(i - 1) =~= keys.skip(i));
    } else {
        assert(keys.skip(0) =~= keys);
    }
}

/// Appending a mapping leaves every earlier lookup as it was, and
/// resolves a lookup of the appended keycode that found nothing before.
pub proof fn lemma_find_key_push(keys: Seq<KeyMapping>, k: KeyMapping, kc: u32)
    ensures
        spec_find_key(keys.push(k), kc) == (match spec_find_key(keys, kc) {
            Some(k0) => Some(k0),
            None => if k.keycode == kc {
                Some(k)
            } else {
                None::<KeyMapping>
            },
        }),
    decreases keys.len(),
{
    if keys.len() == 0 {
        assert(keys.push(k)[0] == k);
        if k.keycode != kc {
            assert(keys.push(k).drop_first() =~= Seq::<KeyMapping>::empty());
        }
    } else {
        assert(keys.push(k)[0] == keys[0]);
        if keys[0].keycode != kc {
            assert(keys.push(k).drop_first() =~= keys.drop_first().push(k));
            lemma_find_key_push(keys.drop_first(), k, kc);
        }
    }
}

/// Find the first mapping for `kc` in `keys`.
pub fn find_key(keys: &Vec<KeyMapping>, kc: u32) -> (r: Option<&KeyMapping>)
    ensures
        match r {
            Some(k) => spec_find_key(keys@, kc) == Some(*k),
            None => spec_find_key(keys@, kc) is None,
        },
{
    let mut i: usize = 0;
    while i < keys.len()
        invariant
            i <= keys@.len(),
            forall|j: int| 0 <= j < i ==> keys@[j].keycode != kc,
        decreases keys@.len() - i,
    {
        if keys[i].keycode == kc {
            proof {
                lemma_find_key_skip(keys@, kc, i as int);
                assert(keys@.skip(i as int)[0] == keys@[i as int]);
            }
            return Some(&keys[i]);
        }
        i = i + 1;
    }
    proof {
        lemma_find_key_skip(keys@, kc, keys@.len() as int);
        assert(keys@.skip(keys@.len() as int).len() == 0);
    }
    None
}

/// The OR of the modifier bits of a list of symbols.
pub open spec fn spec_syms_modifier_mask(syms: Seq<u32>) -> u32
    decreases syms.len(),
{
    if syms.len() == 0 {
        0
    } else {
        spec_modifier_bit(syms[0]) | spec_syms_modifier_mask(syms.drop_first())
    }
}

/// The OR of the lock bits of a list of symbols.
pub open spec fn spec_syms_lock_mask(syms: Seq<u32>) -> u32
    decreases syms.len(),
{
    if syms.len() == 0 {
        0
    } else {
        spec_lock_bit(syms[0]) | spec_syms_lock_mask(syms.drop_first())
    }
}

/// The base-level symbols of `kc` in the first layout of `km`.
pub open spec fn spec_key_base_syms(km: KeymapModel, kc: u32) -> Seq<u32> {
    if km.layouts@.len() == 0 {
        Seq::empty()
    } else {
        match spec_find_key(km.layouts@[0].keys@, kc) {
            Some(k) => if k.levels@.len() == 0 {
                Seq::empty()
            } else {
                k.levels@[0]@
            },
            None => Seq::empty(),
        }
    }
}

/// The depressed-modifier mask a held `kc` contributes under `km`.
pub open spec fn spec_key_modifier_mask(km: KeymapModel, kc: u32) -> u32 {
    spec_syms_modifier_mask(spec_key_base_syms(km, kc))
}

/// The locked-modifier mask a press of `kc` toggles under `km`.
pub open spec fn spec_key_lock_mask(km: KeymapModel, kc: u32) -> u32 {
    spec_syms_lock_mask(spec_key_base_syms(km, kc))
}

/// The OR of the modifier masks of a list of held keys.
pub open spec fn spec_mods_mask(km: KeymapModel, keys: Seq<u32>) -> u32
    decreases keys.len(),
{
    if keys.len() == 0 {
        0
    } else {
        spec_key_modifier_mask(km, keys[0]) | spec_mods_mask(km, keys.drop_first())
    }
}

impl KeymapModel {
    /// An empty keymap: no layouts, no LEDs, empty text.
    pub fn empty() -> (r: KeymapModel)
        ensures
            r.layouts@.len() == 0,
            r.leds.num is None,
            r.leds.caps is None,
            r.leds.scroll is None,
            r.text@.len() == 0,
    {
        KeymapModel {
            layouts: Vec::new(),
            leds: LedDefs { num: None, caps: None, scroll: None },
            text: String::new(),
        }
    }

    /// The number of layouts in the keymap.
    pub fn num_layouts(&self) -> (n: usize)
        ensures
            n == self.layouts@.len(),
    {
        self.layouts.len()
    }

    /// The base-level symbols of `kc` in the first layout.
    pub fn key_base_syms(&self, kc: u32) -> (r: Vec<u32>)
        ensures
            r@ == spec_key_base_syms(*self, kc),
    {
        if self.layouts.len() == 0 {
            return Vec::new();
        }
        match find_key(&self.layouts[0].keys, kc) {
            Some(k) => {
                if k.levels.len() == 0 {
                    Vec::new()
                } else {
                    k.levels[0].clone()
                }
            },
            None => Vec::new(),
        }
    }

    /// The depressed-modifier mask a held `kc` contributes.
    pub fn key_modifier_mask(&self, kc: u32) -> (r: u32)
        ensures
            r == spec_key_modifier_mask(*self, kc),
    {
        let syms = self.key_base_syms(kc);
        syms_modifier_mask(&syms)
    }

    /// The locked-modifier mask a press of `kc` toggles.
    pub fn key_lock_mask(&self, kc: u32) -> (r: u32)
        ensures
            r == spec_key_lock_mask(*self, kc),
    {
        let syms = self.key_base_syms(kc);
        syms_lock_mask(&syms)
    }
}

/// The modifier bit of one symbol.
pub fn modifier_bit(sym: u32) -> (r: u32)
    ensures
        r == spec_modifier_bit(sym),
{
    if sym == KEYSYM_SHIFT_L || sym == KEYSYM_SHIFT_R {
        MOD_MASK_SHIFT
    } else if sym == KEYSYM_CONTROL_L || sym == KEYSYM_CONTROL_R {
        MOD_MASK_CONTROL
    } else if sym == KEYSYM_ALT_L || sym == KEYSYM_ALT_R || sym == KEYSYM_META_L
        || sym == KEYSYM_META_R {
        MOD_MASK_MOD1
    } else if sym == KEYSYM_SUPER_L || sym == KEYSYM_SUPER_R {
        MOD_MASK_MOD4
    } else if sym == KEYSYM_ISO_LEVEL3_SHIFT {
        MOD_MASK_MOD5
    } else if sym == KEYSYM_ISO_LEVEL5_SHIFT {
        MOD_MASK_MOD3
    } else {
        0
    }
}

/// The lock bit of one symbol.
pub fn lock_bit(sym: u32) -> (r: u32)
    ensures
        r == spec_lock_bit(sym),
{
    if sym == KEYSYM_CAPS_LOCK {
        MOD_MASK_LOCK
    } else if sym == KEYSYM_NUM_LOCK {
        MOD_MASK_MOD2
    } else if sym == KEYSYM_SCROLL_LOCK {
        MOD_MASK_MOD3
    } else {
        0
    }
}

/// The OR of the modifier bits of the given symbols.
pub fn syms_modifier_mask(syms: &Vec<u32>) -> (r: u32)
    ensures
        r == spec_syms_modifier_mask(syms@),
{
    let mut acc: u32 = 0;
    let mut i: usize = 0;
    proof {
        assert(syms@.skip(0) =~= syms@);
        let m = spec_syms_modifier_mask(syms@);
        assert(0u32 | m == m) by (bit_vector);
    }
    while i < syms.len()
        invariant
            i <= syms@.len(),
            spec_syms_modifier_mask(syms@) == acc | spec_syms_modifier_mask(syms@.skip(i as int)),
        decreases syms@.len() - i,
    {
        proof {
            lemma_syms_modifier_mask_step(syms@, i as int, acc);
        }
        acc = acc | modifier_bit(syms[i]);
        i = i + 1;
    }
    proof {
        assert(syms@.skip(syms@.len() as int).len() == 0);
        assert(spec_syms_modifier_mask(syms@) == acc | 0);
        assert(acc | 0 == acc) by (bit_vector);
    }
    acc
}

proof fn lemma_syms_modifier_mask_step(syms: Seq<u32>, i: int, acc: u32)
    requires
        0 <= i < syms.len(),
        spec_syms_modifier_mask(syms) == acc | spec_syms_modifier_mask(syms.skip(i)),
    ensures
        spec_syms_modifier_mask(syms)
            == (acc | spec_modifier_bit(syms[i])) | spec_syms_modifier_mask(syms.skip(i + 1)),
{
    let rest = syms.skip(i);
    assert(rest[0] == syms[i]);
    assert(rest.drop_first() =~= syms.skip(i + 1));
    assert(spec_syms_modifier_mask(rest)
        == spec_modifier_bit(syms[i]) | spec_syms_modifier_mask(syms.skip(i + 1)));
    let b = spec_modifier_bit(syms[i]);
    let m = spec_syms_modifier_mask(syms.skip(i + 1));
    assert(acc | (b | m) == (acc | b) | m) by (bit_vector);
}

/// The OR of the lock bits of the given symbols.
pub fn syms_lock_mask(syms: &Vec<u32>) -> (r: u32)
    ensures
        r == spec_syms_lock_mask(syms@),
{
    let mut acc: u32 = 0;
    let mut i: usize = 0;
    proof {
        assert(syms@.skip(0) =~= syms@);
        let m = spec_syms_lock_mask(syms@);
        assert(0u32 | m == m) by (bit_vector);
    }
    while i < syms.len()
        invariant
            i <= syms@.len(),
            spec_syms_lock_mask(syms@) == acc | spec_syms_lock_mask(syms@.skip(i as int)),
        decreases syms@.len() - i,
    {
        proof {
            lemma_syms_lock_mask_step(syms@, i as int, acc);
        }
        acc = acc | lock_bit(syms[i]);
        i = i + 1;
    }
    proof {
        assert(syms@.skip(syms@.len() as int).len() == 0);
        assert(spec_syms_lock_mask(syms@) == acc | 0);
        assert(acc | 0 == acc) by (bit_vector);
    }
    acc
}

/// The OR of the modifier masks of a list of held keys, computed.
pub fn mods_mask(km: &KeymapModel, keys: &KeySet) -> (r: u32)
    ensures
        r == spec_mods_mask(*km, keys.seq_view()),
{
    let s = Ghost(keys.seq_view());
    let mut acc: u32 = 0;
    let mut i: usize = 0;
    proof {
        assert(s@.skip(0) =~= s@);
        let m = spec_mods_mask(*km, s@);
        assert(0u32 | m == m) by (bit_vector);
    }
    while i < keys.len()
        invariant
            s@ == keys.seq_view(),
            i <= s@.len(),
            spec_mods_mask(*km, s@) == acc | spec_mods_mask(*km, s@.skip(i as int)),
        decreases s@.len() - i,
    {
        proof {
            lemma_mods_mask_step(*km, s@, i as int, acc);
        }
        let kc = keys.index(i);
        acc = acc | km.key_modifier_mask(kc);
        i = i + 1;
    }
    proof {
        assert(s@.skip(s@.len() as int).len() == 0);
        assert(spec_mods_mask(*km, s@) == acc | 0);
        assert(acc | 0 == acc) by (bit_vector);
    }
    acc
}

proof fn lemma_mods_mask_step(km: KeymapModel, keys: Seq<u32>, i: int, acc: u32)
    requires
        0 <= i < keys.len(),
        spec_mods_mask(km, keys) == acc | spec_mods_mask(km, keys.skip(i)),
    ensures
        spec_mods_mask(km, keys)
            == (acc | spec_key_modifier_mask(km, keys[i])) | spec_mods_mask(km, keys.skip(i + 1)),
{
    let rest = keys.skip(i);
    assert(rest[0] == keys[i]);
    assert(rest.drop_first() =~= keys.skip(i + 1));
    assert(spec_mods_mask(km, rest)
        == spec_key_modifier_mask(km, keys[i]) | spec_mods_mask(km, keys.skip(i + 1)));
    let b = spec_key_modifier_mask(km, keys[i]);
    let m = spec_mods_mask(km, keys.skip(i + 1));
    assert(acc | (b | m) == (acc | b) | m) by (bit_vector);
}

proof fn lemma_syms_lock_mask_step(syms: Seq<u32>, i: int, acc: u32)
    requires
        0 <= i < syms.len(),
        spec_syms_lock_mask(syms) == acc | spec_syms_lock_mask(syms.skip(i)),
    ensures
        spec_syms_lock_mask(syms)
            == (acc | spec_lock_bit(syms[i])) | spec_syms_lock_mask(syms.skip(i + 1)),
{
    let rest = syms.skip(i);
    assert(rest[0] == syms[i]);
    assert(rest.drop_first() =~= syms.skip(i + 1));
    assert(spec_syms_lock_mask(rest)
        == spec_lock_bit(syms[i]) | spec_syms_lock_mask(syms.skip(i + 1)));
    let b = spec_lock_bit(syms[i]);
    let m = spec_syms_lock_mask(syms.skip(i + 1));
    assert(acc | (b | m) == (acc | b) | m) by (bit_vector);
}

impl KeymapModel {
    /// A keymap small enough that layout indices fit the wire's integers.
    pub open spec fn wf(self) -> bool {
        self.layouts@.len() < 0x100000000
    }
}

/// The locked mask a fresh state reaches after replaying the given keys
/// as presses, in order: each press toggles its key's lock bits.
pub open spec fn spec_replay_locked(km: KeymapModel, keys: Seq<u32>) -> u32
    decreases keys.len(),
{
    if keys.len() == 0 {
        0
    } else {
        spec_replay_locked(km, keys.drop_last()) ^ spec_key_lock_mask(km, keys.last())
    }
}

/// Which categories of a state changed under a key event.
#[derive(Clone, Copy, Debug, PartialEq, Eq, Structural)]
pub struct StateChanges {
    /// Whether a modifier mask changed.
    pub mods: bool,
    /// Whether the effective layout changed.
    pub layout: bool,
}

/// The live keyboard state: a keymap plus the keys it has seen held, the
/// modifier masks they produce, and the locked layout.
#[derive(Debug)]
pub struct XkbState {
    /// The compiled keymap this state interprets keys under.
    pub keymap: KeymapModel,
    /// The keys currently held, as this state has been told.
    pub pressed: KeySet,
    /// Modifier mask of the physically held modifier keys.
    pub depressed: u32,
    /// Modifier mask latched until the next key; this model never latches.
    pub latched: u32,
    /// Modifier mask of the active locks (caps, num, scroll).
    pub locked: u32,
    /// The locked layout index; the effective layout reduces it modulo the
    /// number of layouts.
    pub locked_layout: u32,
}

impl XkbState {
    /// The state's internal consistency: the keys are a set, the depressed
    /// mask is exactly what the held keys produce, and nothing is latched.
    pub open spec fn wf(self) -> bool {
        &&& self.keymap.wf()
        &&& self.pressed.wf()
        &&& self.depressed == spec_mods_mask(self.keymap, self.pressed.seq_view())
        &&& self.latched == 0
    }

    /// The effective modifier mask.
    pub open spec fn spec_effective(self) -> u32 {
        self.depressed | self.latched | self.locked
    }

    /// The effective layout index.
    pub open spec fn spec_effective_layout(self) -> int {
        if self.keymap.layouts@.len() == 0 {
            0
        } else {
            self.locked_layout as int % self.keymap.layouts@.len() as int
        }
    }

    /// A fresh state over `keymap`: no key held, no modifier active.
    pub fn new(keymap: KeymapModel) -> (r: XkbState)
        requires
            keymap.wf(),
        ensures
            r.wf(),
            r.keymap == keymap,
            r.pressed.set_view() == Set::<u32>::empty(),
            r.pressed.seq_view().len() == 0,
            r.depressed == 0u32,
            r.locked == 0u32,
            r.locked_layout == 0u32,
    {
        XkbState {
            keymap,
            pressed: KeySet::new(),
            depressed: 0,
            latched: 0,
            locked: 0,
            locked_layout: 0,
        }
    }

    /// The effective modifier mask.
    pub fn effective_mods(&self) -> (r: u32)
        ensures
            r == self.spec_effective(),
    {
        self.depressed | self.latched | self.locked
    }

    /// The effective layout index.
    pub fn effective_layout(&self) -> (r: u32)
        requires
            self.keymap.wf(),
        ensures
            r as int == self.spec_effective_layout(),
    {
        let n = self.keymap.layouts.len();
        if n == 0 {
            0
        } else {
            self.locked_layout % (n as u32)
        }
    }

    /// Advance the state by one key event. A press adds the key and toggles
    /// any lock it carries; a release removes it; either way the depressed
    /// mask is recomputed from the keys still held. Returns which
    /// categories changed.
    pub fn update_key(&mut self, keycode: u32, down: bool) -> (r: StateChanges)
        requires
            old(self).wf(),
        ensures
            final(self).wf(),
            final(self).keymap == old(self).keymap,
            final(self).pressed.set_view() == if down {
                old(self).pressed.set_view().insert(keycode)
            } else {
                old(self).pressed.set_view().remove(keycode)
            },
            down ==> final(self).pressed.seq_view() == if old(self).pressed.set_view().contains(
                keycode) {
                old(self).pressed.seq_view()
            } else {
                old(self).pressed.seq_view().push(keycode)
            },
            !down && old(self).pressed.set_view().contains(keycode) ==> exists|i: int|
                0 <= i < old(self).pressed.seq_view().len()
                    && #[trigger] old(self).pressed.seq_view()[i] == keycode
                    && final(self).pressed.seq_view() == old(self).pressed.seq_view().remove(i),
            !down && !old(self).pressed.set_view().contains(keycode) ==> final(
                self).pressed.seq_view() == old(self).pressed.seq_view(),
            final(self).locked == if down {
                old(self).locked ^ spec_key_lock_mask(old(self).keymap, keycode)
            } else {
                old(self).locked
            },
            final(self).locked_layout == old(self).locked_layout,
            r.mods == (final(self).depressed != old(self).depressed
                || final(self).locked != old(self).locked),
            r.layout == false,
    {
        let old_depressed = self.depressed;
        let old_locked = self.locked;
        if down {
            self.pressed.insert(keycode);
            let lock_mask = self.keymap.key_lock_mask(keycode);
            self.locked = self.locked ^ lock_mask;
        } else {
            self.pressed.remove(keycode);
        }
        self.depressed = mods_mask(&self.keymap, &self.pressed);
        let mods_changed = self.depressed != old_depressed || self.locked != old_locked;
        StateChanges { mods: mods_changed, layout: false }
    }

    /// Set the locked layout. Returns whether the effective layout changed.
    pub fn set_layout(&mut self, layout: Layout) -> (r: bool)
        requires
            old(self).wf(),
        ensures
            final(self).wf(),
            *final(self) == (XkbState { locked_layout: layout.0, ..*old(self) }),
            r == (final(self).spec_effective_layout() != old(self).spec_effective_layout()),
    {
        let before = self.effective_layout();
        self.locked_layout = layout.0;
        let after = self.effective_layout();
        before != after
    }

    /// The effective layout as a `Layout` handle.
    pub fn active_layout(&self) -> (r: Layout)
        requires
            self.keymap.wf(),
        ensures
            r.0 as int == self.spec_effective_layout(),
    {
        Layout(self.effective_layout())
    }

    /// The layout a key is interpreted under: the effective layout.
    pub fn key_get_layout(&self, _keycode: u32) -> (r: u32)
        requires
            self.keymap.wf(),
        ensures
            r as int == self.spec_effective_layout(),
    {
        self.effective_layout()
    }

    /// The shift level `keycode` resolves at: level one while shift is
    /// effective and the key has more than one level, else level zero.
    pub open spec fn spec_shift_level(self, k: KeyMapping) -> int {
        if self.spec_effective() & MOD_MASK_SHIFT != 0 && k.levels@.len() > 1 {
            1
        } else {
            0
        }
    }

    /// The single symbol of `k` at `level`, or no-symbol when the level is
    /// missing or holds more than one symbol.
    pub open spec fn spec_sym_at(k: KeyMapping, level: int) -> u32 {
        if 0 <= level < k.levels@.len() && k.levels@[level]@.len() == 1 {
            k.levels@[level]@[0]
        } else {
            KEYSYM_NO_SYMBOL
        }
    }

    /// The caps-lock letter rule: while caps is effective, ASCII letters
    /// swap case; everything else passes through.
    pub open spec fn spec_apply_caps(sym: u32, caps: bool) -> u32 {
        if caps && 0x61 <= sym && sym <= 0x7a {
            (sym - 0x20) as u32
        } else if caps && 0x41 <= sym && sym <= 0x5a {
            (sym + 0x20) as u32
        } else {
            sym
        }
    }

    /// The symbol `keycode` produces under the current state.
    pub open spec fn spec_modified_sym(self, keycode: u32) -> u32 {
        if self.keymap.layouts@.len() == 0 {
            KEYSYM_NO_SYMBOL
        } else {
            match spec_find_key(
                self.keymap.layouts@[self.spec_effective_layout()].keys@,
                keycode,
            ) {
                Some(k) => Self::spec_apply_caps(
                    Self::spec_sym_at(k, self.spec_shift_level(k)),
                    self.spec_effective() & MOD_MASK_LOCK != 0,
                ),
                None => KEYSYM_NO_SYMBOL,
            }
        }
    }

    /// The symbol `keycode` produces, with the state's modifications
    /// applied; no-symbol when the key has not exactly one symbol.
    pub fn key_get_one_sym(&self, keycode: u32) -> (r: u32)
        requires
            self.keymap.wf(),
        ensures
            r == self.spec_modified_sym(keycode),
    {
        if self.keymap.layouts.len() == 0 {
            return KEYSYM_NO_SYMBOL;
        }
        let li = self.effective_layout();
        match find_key(&self.keymap.layouts[li as usize].keys, keycode) {
            Some(k) => {
                let level: usize = if self.effective_mods() & MOD_MASK_SHIFT != 0
                    && k.levels.len() > 1 {
                    1
                } else {
                    0
                };
                let base: u32 = if level < k.levels.len() && k.levels[level].len() == 1 {
                    k.levels[level][0]
                } else {
                    KEYSYM_NO_SYMBOL
                };
                let caps = self.effective_mods() & MOD_MASK_LOCK != 0;
                if caps && 0x61 <= base && base <= 0x7a {
                    base - 0x20
                } else if caps && 0x41 <= base && base <= 0x5a {
                    base + 0x20
                } else {
                    base
                }
            },
            None => KEYSYM_NO_SYMBOL,
        }
    }

    /// The symbols of `keycode` at the level the state selects, without the
    /// caps-lock transformation.
    pub open spec fn spec_modified_syms(self, keycode: u32) -> Seq<u32> {
        if self.keymap.layouts@.len() == 0 {
            Seq::empty()
        } else {
            match spec_find_key(
                self.keymap.layouts@[self.spec_effective_layout()].keys@,
                keycode,
            ) {
                Some(k) => {
                    let level = self.spec_shift_level(k);
                    if 0 <= level < k.levels@.len() {
                        k.levels@[level]@
                    } else {
                        Seq::empty()
                    }
                },
                None => Seq::empty(),
            }
        }
    }

    /// The symbols of `keycode` at the level the state selects.
    pub fn key_get_syms(&self, keycode: u32) -> (r: Vec<u32>)
        requires
            self.keymap.wf(),
        ensures
            r@ == self.spec_modified_syms(keycode),
    {
        if self.keymap.layouts.len() == 0 {
            return Vec::new();
        }
        let li = self.effective_layout();
        match find_key(&self.keymap.layouts[li as usize].keys, keycode) {
            Some(k) => {
                let level: usize = if self.effective_mods() & MOD_MASK_SHIFT != 0
                    && k.levels.len() > 1 {
                    1
                } else {
                    0
                };
                if level < k.levels.len() {
                    k.levels[level].clone()
                } else {
                    Vec::new()
                }
            },
            None => Vec::new(),
        }
    }
}

impl XkbState {
    /// Switch the layout forward, cycling at the end. With no layout this
    /// is a no-op; with one layout it stays put. Returns whether the
    /// effective layout changed.
    pub fn cycle_next_layout(&mut self) -> (r: bool)
        requires
            old(self).wf(),
        ensures
            final(self).wf(),
            final(self).keymap == old(self).keymap,
            final(self).pressed == old(self).pressed,
            final(self).depressed == old(self).depressed,
            final(self).locked == old(self).locked,
            old(self).keymap.layouts@.len() == 0 ==> *final(self) == *old(self),
            old(self).keymap.layouts@.len() > 0 ==> final(self).locked_layout as int
                == (old(self).spec_effective_layout() + 1) % (
                old(self).keymap.layouts@.len() as int),
            r == (final(self).spec_effective_layout() != old(self).spec_effective_layout()),
    {
        let n = self.keymap.layouts.len();
        if n == 0 {
            return false;
        }
        let next = (self.effective_layout() + 1) % (n as u32);
        self.set_layout(Layout(next))
    }

    /// Switch the layout backward, cycling at the start. With no layout
    /// this is a no-op. Returns whether the effective layout changed.
    pub fn cycle_prev_layout(&mut self) -> (r: bool)
        requires
            old(self).wf(),
        ensures
            final(self).wf(),
            final(self).keymap == old(self).keymap,
            final(self).pressed == old(self).pressed,
            final(self).depressed == old(self).depressed,
            final(self).locked == old(self).locked,
            old(self).keymap.layouts@.len() == 0 ==> *final(self) == *old(self),
            old(self).keymap.layouts@.len() > 0 ==> final(self).locked_layout as int
                == (old(self).keymap.layouts@.len() as int
                + old(self).spec_effective_layout() - 1) % (
                old(self).keymap.layouts@.len() as int),
            r == (final(self).spec_effective_layout() != old(self).spec_effective_layout()),
    {
        let n = self.keymap.layouts.len();
        if n == 0 {
            return false;
        }
        let n64 = n as u64;
        let prev = ((n64 + (self.effective_layout() as u64) - 1) % n64) as u32;
        self.set_layout(Layout(prev))
    }

    /// The raw latin symbol of `keycode`, or its raw current symbol.
    ///
    /// The base symbol of the effective layout wins when it is ASCII or
    /// produces no character; otherwise the other layouts are scanned, in
    /// order, for a printable ASCII base symbol of the same key, and the
    /// base symbol is the fallback. `None` when the key produces nothing.
    pub open spec fn spec_raw_latin_sym_or_raw_current_sym(self, keycode: u32) -> Option<u32> {
        let li = self.spec_effective_layout();
        let raw = spec_raw_syms(self.keymap, li, keycode);
        if raw.len() == 0 {
            None
        } else {
            let base = raw[0];
            if (match spec_keysym_char_code(base) {
                Some(c) => spec_is_ascii_code(c),
                None => true,
            }) {
                Some(base)
            } else {
                match spec_scan_ascii_layout(self.keymap, keycode, 0, li) {
                    Some(s) => Some(s),
                    None => Some(base),
                }
            }
        }
    }

    /// The raw latin symbol of `keycode`, or its raw current symbol.
    pub fn raw_latin_sym_or_raw_current_sym(&self, keycode: u32) -> (r: Option<u32>)
        requires
            self.keymap.wf(),
        ensures
            r == self.spec_raw_latin_sym_or_raw_current_sym(keycode),
    {
        let li = self.effective_layout();
        let raw = raw_syms_in_layout(&self.keymap, li, keycode);
        if raw.len() == 0 {
            return None;
        }
        let base = raw[0];
        let base_ascii = match keysym_char_code(base) {
            Some(c) => c < 0x80,
            None => true,
        };
        if base_ascii {
            return Some(base);
        }
        let n = self.keymap.layouts.len();
        let mut idx: usize = 0;
        while idx < n
            invariant
                n == self.keymap.layouts@.len(),
                idx <= n,
                self.keymap.wf(),
                li as int == self.spec_effective_layout(),
                raw@ == spec_raw_syms(self.keymap, li as int, keycode),
                raw@.len() > 0,
                base == raw@[0],
                !(match spec_keysym_char_code(base) {
                    Some(c) => spec_is_ascii_code(c),
                    None => true,
                }),
                spec_scan_ascii_layout(self.keymap, keycode, 0, li as int)
                    == spec_scan_ascii_layout(self.keymap, keycode, idx as int, li as int),
            decreases n - idx,
        {
            if idx != li as usize {
                let syms = raw_syms_in_layout(&self.keymap, idx as u32, keycode);
                if syms.len() > 0 {
                    match keysym_char_code(syms[0]) {
                        Some(c) => {
                            if c < 0x80 && !(c < 0x20 || c == 0x7f) {
                                proof {
                                    assert(spec_scan_ascii_layout(
                                        self.keymap, keycode, idx as int, li as int)
                                        == Some(syms@[0]));
                                }
                                return Some(syms[0]);
                            }
                        },
                        None => {},
                    }
                }
            }
            idx = idx + 1;
        }
        Some(base)
    }
}

/// The first layout other than `skip`, from position `idx` on, whose base
/// symbol for `kc` is printable ASCII; that symbol, if any.
pub open spec fn spec_scan_ascii_layout(km: KeymapModel, kc: u32, idx: int, skip: int) -> Option<u32>
    decreases km.layouts@.len() - idx,
{
    if idx < 0 || idx >= km.layouts@.len() {
        None
    } else if idx == skip {
        spec_scan_ascii_layout(km, kc, idx + 1, skip)
    } else {
        let raw = spec_raw_syms(km, idx, kc);
        if raw.len() > 0 && (match spec_keysym_char_code(raw[0]) {
            Some(c) => spec_is_ascii_code(c) && !spec_is_ascii_control(c),
            None => false,
        }) {
            Some(raw[0])
        } else {
            spec_scan_ascii_layout(km, kc, idx + 1, skip)
        }
    }
}

/// The base-level symbols of `kc` in layout `layout` of `km`; empty when
/// the layout or the key is missing.
pub open spec fn spec_raw_syms(km: KeymapModel, layout: int, kc: u32) -> Seq<u32> {
    if 0 <= layout < km.layouts@.len() {
        match spec_find_key(km.layouts@[layout].keys@, kc) {
            Some(k) => if k.levels@.len() == 0 {
                Seq::empty()
            } else {
                k.levels@[0]@
            },
            None => Seq::empty(),
        }
    } else {
        Seq::empty()
    }
}

/// Serialized modifier state, as sent on the wire.
#[derive(Copy, Clone, Debug, PartialEq, Eq, Structural, Hash)]
pub struct SerializedMods {
    /// Depressed modifiers.
    pub depressed: u32,
    /// Latched modifiers.
    pub latched: u32,
    /// Locked modifiers.
    pub locked: u32,
    /// Effective keyboard layout.
    pub layout_effective: u32,
}

impl Default for SerializedMods {
    /// All masks clear and the first layout effective.
    fn default() -> (r: SerializedMods)
        ensures
            r == (SerializedMods { depressed: 0, latched: 0, locked: 0, layout_effective: 0 }),
    {
        SerializedMods { depressed: 0, latched: 0, locked: 0, layout_effective: 0 }
    }
}

/// The serialized form of a state's modifier masks and effective layout.
pub open spec fn spec_serialize_modifiers(state: XkbState) -> SerializedMods {
    SerializedMods {
        depressed: state.depressed,
        latched: state.latched,
        locked: state.locked,
        layout_effective: state.spec_effective_layout() as u32,
    }
}

/// Serialize a state's modifier masks and effective layout.
pub fn serialize_modifiers(state: &XkbState) -> (r: SerializedMods)
    requires
        state.keymap.wf(),
    ensures
        r == spec_serialize_modifiers(*state),
{
    SerializedMods {
        depressed: state.depressed,
        latched: state.latched,
        locked: state.locked,
        layout_effective: state.effective_layout(),
    }
}

/// The state of the keyboard modifiers: one flag per modifier that is
/// currently effective, plus the serialized form for wire transmission.
#[derive(Copy, Clone, Debug, PartialEq, Eq, Structural, Hash)]
pub struct ModifiersState {
    /// The "control" key.
    pub ctrl: bool,
    /// The "alt" key.
    pub alt: bool,
    /// The "shift" key.
    pub shift: bool,
    /// The "caps lock" key.
    pub caps_lock: bool,
    /// The "logo" key.
    pub logo: bool,
    /// The "num lock" key.
    pub num_lock: bool,
    /// The "level 3 shift" key, also known as AltGr.
    pub iso_level3_shift: bool,
    /// The "level 5 shift" key.
    pub iso_level5_shift: bool,
    /// Serialized modifier state, as sent on the wire.
    pub serialized: SerializedMods,
}

/// The modifier flags a state exhibits.
pub open spec fn spec_mods_state_of(state: XkbState) -> ModifiersState {
    let e = state.spec_effective();
    ModifiersState {
        ctrl: e & MOD_MASK_CONTROL != 0,
        alt: e & MOD_MASK_MOD1 != 0,
        shift: e & MOD_MASK_SHIFT != 0,
        caps_lock: e & MOD_MASK_LOCK != 0,
        logo: e & MOD_MASK_MOD4 != 0,
        num_lock: e & MOD_MASK_MOD2 != 0,
        iso_level3_shift: e & MOD_MASK_MOD5 != 0,
        iso_level5_shift: e & MOD_MASK_MOD3 != 0,
        serialized: spec_serialize_modifiers(state),
    }
}

impl Default for ModifiersState {
    /// No modifier active.
    fn default() -> (r: ModifiersState)
        ensures
            r == (ModifiersState {
                ctrl: false,
                alt: false,
                shift: false,
                caps_lock: false,
                logo: false,
                num_lock: false,
                iso_level3_shift: false,
                iso_level5_shift: false,
                serialized: SerializedMods {
                    depressed: 0,
                    latched: 0,
                    locked: 0,
                    layout_effective: 0,
                },
            }),
    {
        ModifiersState {
            ctrl: false,
            alt: false,
            shift: false,
            caps_lock: false,
            logo: false,
            num_lock: false,
            iso_level3_shift: false,
            iso_level5_shift: false,
            serialized: SerializedMods { depressed: 0, latched: 0, locked: 0, layout_effective: 0 },
        }
    }
}

impl ModifiersState {
    /// Recompute every flag from a state's effective modifier mask.
    pub fn update_with(&mut self, state: &XkbState)
        requires
            state.keymap.wf(),
        ensures
            *final(self) == spec_mods_state_of(*state),
    {
        let e = state.effective_mods();
        self.ctrl = e & MOD_MASK_CONTROL != 0;
        self.alt = e & MOD_MASK_MOD1 != 0;
        self.shift = e & MOD_MASK_SHIFT != 0;
        self.caps_lock = e & MOD_MASK_LOCK != 0;
        self.logo = e & MOD_MASK_MOD4 != 0;
        self.num_lock = e & MOD_MASK_MOD2 != 0;
        self.iso_level3_shift = e & MOD_MASK_MOD5 != 0;
        self.iso_level5_shift = e & MOD_MASK_MOD3 != 0;
        self.serialized = serialize_modifiers(state);
    }
}

/// Which locked masks drive the LEDs, copied out of a keymap.
#[derive(Debug, Clone, Copy, PartialEq, Eq)]
pub struct LedMapping {
    /// The locked mask of the num-lock LED, if the keymap defines it.
    pub num: Option<u32>,
    /// The locked mask of the caps-lock LED, if the keymap defines it.
    pub caps: Option<u32>,
    /// The locked mask of the scroll-lock LED, if the keymap defines it.
    pub scroll: Option<u32>,
}

impl LedMapping {
    /// Read the LED declarations out of a keymap.
    pub fn from_keymap(keymap: &KeymapModel) -> (r: LedMapping)
        ensures
            r.num == keymap.leds.num,
            r.caps == keymap.leds.caps,
            r.scroll == keymap.leds.scroll,
    {
        LedMapping { num: keymap.leds.num, caps: keymap.leds.caps, scroll: keymap.leds.scroll }
    }
}

/// Current state of each LED, where the keymap defines it.
#[derive(Debug, Copy, Clone, PartialEq, Eq)]
pub struct LedState {
    /// State of the num-lock LED.
    pub num: Option<bool>,
    /// State of the caps-lock LED.
    pub caps: Option<bool>,
    /// State of the scroll-lock LED.
    pub scroll: Option<bool>,
}

impl Default for LedState {
    /// No LED defined.
    fn default() -> (r: LedState)
        ensures
            r == (LedState { num: None, caps: None, scroll: None }),
    {
        LedState { num: None, caps: None, scroll: None }
    }
}

/// Whether two optional flags are equal.
fn opt_bool_eq(a: Option<bool>, b: Option<bool>) -> (r: bool)
    ensures
        r == (a == b),
{
    match (a, b) {
        (None, None) => true,
        (Some(x), Some(y)) => x == y,
        _ => false,
    }
}

/// The LED states a state's locked mask drives under a mapping.
pub open spec fn spec_led_state_of(state: XkbState, mapping: LedMapping) -> LedState {
    LedState {
        num: match mapping.num {
            Some(mask) => Some(state.locked & mask != 0),
            None => None,
        },
        caps: match mapping.caps {
            Some(mask) => Some(state.locked & mask != 0),
            None => None,
        },
        scroll: match mapping.scroll {
            Some(mask) => Some(state.locked & mask != 0),
            None => None,
        },
    }
}

impl LedState {
    /// Update the LED state from a state and mapping. Returns whether the
    /// LED state changed.
    pub fn update_with(&mut self, state: &XkbState, mapping: &LedMapping) -> (r: bool)
        ensures
            *final(self) == spec_led_state_of(*state, *mapping),
            r == (*final(self) != *old(self)),
    {
        let previous = *self;
        self.num = match mapping.num {
            Some(mask) => Some(state.locked & mask != 0),
            None => None,
        };
        self.caps = match mapping.caps {
            Some(mask) => Some(state.locked & mask != 0),
            None => None,
        };
        self.scroll = match mapping.scroll {
            Some(mask) => Some(state.locked & mask != 0),
            None => None,
        };
        let same = opt_bool_eq(self.num, previous.num) && opt_bool_eq(self.caps, previous.caps)
            && opt_bool_eq(self.scroll, previous.scroll);
        !same
    }

    /// Initialize the LED state from a state and mapping.
    pub fn from_state(state: &XkbState, mapping: &LedMapping) -> (r: LedState)
        ensures
            r == spec_led_state_of(*state, *mapping),
    {
        let mut led_state = LedState::default();
        led_state.update_with(state, mapping);
        led_state
    }
}

/// Configuration for keymap compilation: the rule set and the names that
/// select a layout within it. Empty fields fall back to the compiler's
/// defaults.
#[derive(Clone, Debug)]
pub struct XkbConfig {
    /// The rules file to use.
    pub rules: String,
    /// The keyboard model by which to interpret keycodes and LEDs.
    pub model: String,
    /// A comma separated list of layouts to include in the keymap.
    pub layout: String,
    /// A comma separated list of variants, one per layout.
    pub variant: String,
    /// A comma separated list of non-layout options.
    pub options: Option<String>,
}

impl Default for XkbConfig {
    /// Every field empty: the compiler's defaults decide.
    fn default() -> (r: XkbConfig)
        ensures
            r.rules@.len() == 0,
            r.model@.len() == 0,
            r.layout@.len() == 0,
            r.variant@.len() == 0,
            r.options is None,
    {
        XkbConfig {
            rules: String::new(),
            model: String::new(),
            layout: String::new(),
            variant: String::new(),
            options: None,
        }
    }
}

/// The live engine triple: in this library the compiled keymap and the
/// state it drives, bundled for exclusive-owner access.
#[derive(Debug)]
pub struct Xkb {
    /// The live state, which owns the compiled keymap.
    pub state: XkbState,
}

impl Xkb {
    /// The compiled keymap.
    pub fn keymap(&self) -> (r: &KeymapModel)
        ensures
            r == &self.state.keymap,
    {
        &self.state.keymap
    }

    /// The active layout of the keyboard.
    pub fn active_layout(&self) -> (r: Layout)
        requires
            self.state.keymap.wf(),
        ensures
            r.0 as int == self.state.spec_effective_layout(),
    {
        self.state.active_layout()
    }

    /// The human readable name of a layout, if it exists.
    pub fn layout_name(&self, layout: Layout) -> (r: Option<&String>)
        ensures
            match r {
                Some(name) => layout.0 < self.state.keymap.layouts@.len()
                    && name@ == self.state.keymap.layouts@[layout.0 as int].name@,
                None => layout.0 >= self.state.keymap.layouts@.len(),
            },
    {
        if (layout.0 as usize) < self.state.keymap.layouts.len() {
            Some(&self.state.keymap.layouts[layout.0 as usize].name)
        } else {
            None
        }
    }

    /// The layouts present in the keymap, as handles.
    pub fn layouts(&self) -> (r: Vec<Layout>)
        requires
            self.state.keymap.wf(),
        ensures
            r@.len() == self.state.keymap.layouts@.len(),
            forall|i: int| 0 <= i < r@.len() ==> r@[i].0 == i,
    {
        let n = self.state.keymap.layouts.len();
        let mut r: Vec<Layout> = Vec::new();
        let mut i: usize = 0;
        while i < n
            invariant
                n == self.state.keymap.layouts@.len(),
                n < 0x100000000,
                i <= n,
                r@.len() == i,
                forall|j: int| 0 <= j < i ==> r@[j].0 == j,
            decreases n - i,
        {
            r.push(Layout(i as u32));
            i = i + 1;
        }
        r
    }

    /// The symbols of `keycode` in `layout` without the current state's
    /// modifications applied.
    pub fn raw_syms_for_key_in_layout(&self, keycode: u32, layout: Layout) -> (r: Vec<u32>)
        ensures
            r@ == spec_raw_syms(self.state.keymap, layout.0 as int, keycode),
    {
        raw_syms_in_layout(&self.state.keymap, layout.0, keycode)
    }
}

/// The base-level symbols of `kc` in layout `layout` of `km`.
pub fn raw_syms_in_layout(km: &KeymapModel, layout: u32, kc: u32) -> (r: Vec<u32>)
    ensures
        r@ == spec_raw_syms(*km, layout as int, kc),
{
    if (layout as usize) < km.layouts.len() {
        match find_key(&km.layouts[layout as usize].keys, kc) {
            Some(k) => {
                if k.levels.len() == 0 {
                    Vec::new()
                } else {
                    k.levels[0].clone()
                }
            },
            None => Vec::new(),
        }
    } else {
        Vec::new()
    }
}

} // verus!
