//! The bridge to the keymap compiler. Compilation of a keymap from
//! named rules or from its textual form is the compiler's work and is
//! reached through trusted declarations; the compiled keymap is then
//! read out, key by key and level by level, into the library's own
//! keymap model, on which everything else is verified.
//!
//! The compiled keymap is opaque, so its contents carry names: its
//! serialized text, layout count, keycode range, per-key level counts
//! and symbol sequences, layout names and LED presence are uninterpreted
//! functions of the keymap, each query wrapper answers in terms of them,
//! and the read-out is proved to equal the named contents up to the
//! model's caps.

use vstd::prelude::*;
use vstd::string::StringSliceAdditionalSpecFns;
use crate::keyboard::{KeyboardError, KeyboardHandle};
use crate::serial::SerialCounter;
use crate::textutil::{contains_bytes, spec_contains_seq};
use crate::xkb::{
    lemma_find_key_push, spec_find_key, KeymapModel, KeyMapping, LayoutDef, LedDefs, XkbConfig,
};
use crate::xkb::{MOD_MASK_LOCK, MOD_MASK_MOD2, MOD_MASK_MOD3};

verus! {

/// The keymap compiler's context type.
#[verifier::external_type_specification]
#[verifier::external_body]
pub struct ExXkbContext(xkbcommon_rs::Context);

/// The compiled keymap type of the keymap compiler.
#[verifier::external_type_specification]
#[verifier::external_body]
pub struct ExXkbKeymap(xkbcommon_rs::Keymap);

/// The keymap compiler's error type.
#[verifier::external_type_specification]
#[verifier::external_body]
pub struct ExKeymapCompileError(xkbcommon_rs::error::keymap::KeymapCompileError);

/// The serialized textual form of a compiled keymap.
pub uninterp spec fn xkb_text_of(keymap: &xkbcommon_rs::Keymap) -> Seq<char>;

/// How many layouts a compiled keymap holds.
pub uninterp spec fn xkb_layout_count_of(keymap: &xkbcommon_rs::Keymap) -> int;

/// The lowest keycode of a compiled keymap.
pub uninterp spec fn xkb_min_keycode_of(keymap: &xkbcommon_rs::Keymap) -> u32;

/// The highest keycode of a compiled keymap.
pub uninterp spec fn xkb_max_keycode_of(keymap: &xkbcommon_rs::Keymap) -> u32;

/// How many shift levels a key has in a layout of a compiled keymap.
pub uninterp spec fn xkb_level_count_of(
    keymap: &xkbcommon_rs::Keymap,
    keycode: u32,
    layout: int,
) -> int;

/// The symbols of a key at a level of a layout of a compiled keymap;
/// empty for a key the keymap does not map.
pub uninterp spec fn xkb_syms_of(
    keymap: &xkbcommon_rs::Keymap,
    keycode: u32,
    layout: int,
    level: int,
) -> Seq<u32>;

/// The name of a layout of a compiled keymap, where it has one.
pub uninterp spec fn xkb_layout_name_of(
    keymap: &xkbcommon_rs::Keymap,
    layout: int,
) -> Option<Seq<char>>;

/// Whether a compiled keymap defines the LED of the given name.
pub uninterp spec fn xkb_has_led_of(keymap: &xkbcommon_rs::Keymap, name: Seq<char>) -> bool;

/// Relies on Context::new: a fresh compiler context. The constructor
/// succeeds on every path — failures to set up the default include
/// paths are only logged — so a context always comes back.
#[verifier::external_body]
fn xkb_context_new() -> (r: Option<xkbcommon_rs::Context>)
    ensures
        r is Some,
{
    xkbcommon_rs::Context::new(0u32).ok()
}

/// Relies on Keymap::new_from_names: compile a keymap from the RMLVO
/// names of the configuration, against the rule files on this machine.
/// The compiler aborts the process, rather than erring, on some
/// malformed rule files on disk; that hazard depends on the machine's
/// files alone and cannot be fenced off from here, so the promise of no
/// panic ends at this call.
#[verifier::external_body]
fn xkb_keymap_from_names(context: xkbcommon_rs::Context, config: &XkbConfig) -> Result<
    xkbcommon_rs::Keymap,
    xkbcommon_rs::error::keymap::KeymapCompileError,
> {
    let rmlvo = xkbcommon_rs::xkb_keymap::RuleNames {
        rules: Some(config.rules.clone()),
        model: Some(config.model.clone()),
        layout: Some(config.layout.clone()),
        variant: Some(config.variant.clone()),
        options: config.options.clone(),
    };
    xkbcommon_rs::Keymap::new_from_names(context, Some(rmlvo), 0u32)
}

/// Relies on Keymap::new_from_string: compile a keymap from its textual
/// form. The compiler resolves include statements against files on this
/// machine and aborts, rather than erring, on ones whose group suffix it
/// cannot parse, so a text holding the include keyword is left out of
/// this item's domain; a complete serialized keymap never holds one.
#[verifier::external_body]
fn xkb_keymap_from_string(context: xkbcommon_rs::Context, text: &str) -> Result<
    xkbcommon_rs::Keymap,
    xkbcommon_rs::error::keymap::KeymapCompileError,
>
    requires
        !spec_contains_seq(text.spec_bytes(), spec_include_marker()),
{
    xkbcommon_rs::Keymap::new_from_string(context, text, 1u32, 0u32)
}

/// Relies on Keymap::get_as_string: the compiled keymap serialized in
/// the textual wire format; feeding it back compiles the same keymap.
/// The dump of a compiled keymap only ever writes into a string, so it
/// succeeds on every keymap.
#[verifier::external_body]
fn xkb_keymap_as_string(keymap: &xkbcommon_rs::Keymap) -> (r: Option<String>)
    ensures
        r is Some,
        r matches Some(text) ==> text@ == xkb_text_of(keymap),
{
    keymap.get_as_string(1u32).ok()
}

/// Relies on Keymap::num_layouts: how many layouts the keymap holds.
#[verifier::external_body]
fn xkb_keymap_num_layouts(keymap: &xkbcommon_rs::Keymap) -> (r: usize)
    ensures
        r as int == xkb_layout_count_of(keymap),
{
    keymap.num_layouts()
}

/// Relies on Keymap::min_keycode.
#[verifier::external_body]
fn xkb_keymap_min_keycode(keymap: &xkbcommon_rs::Keymap) -> (r: u32)
    ensures
        r == xkb_min_keycode_of(keymap),
{
    keymap.min_keycode().0
}

/// Relies on Keymap::max_keycode.
#[verifier::external_body]
fn xkb_keymap_max_keycode(keymap: &xkbcommon_rs::Keymap) -> (r: u32)
    ensures
        r == xkb_max_keycode_of(keymap),
{
    keymap.max_keycode().0
}

/// Relies on Keymap::num_levels_for_key: how many shift levels the key
/// has in the layout; zero for a key or layout the keymap lacks.
#[verifier::external_body]
fn xkb_keymap_num_levels(keymap: &xkbcommon_rs::Keymap, keycode: u32, layout: usize) -> (r: usize)
    ensures
        r as int == xkb_level_count_of(keymap, keycode, layout as int),
{
    keymap.num_levels_for_key(keycode, layout)
}

/// Relies on Keymap::key_get_syms_by_level: how many symbols the key
/// produces at the level in the layout; zero for a key the keymap does
/// not map.
#[verifier::external_body]
fn xkb_keymap_num_syms_at(
    keymap: &xkbcommon_rs::Keymap,
    keycode: u32,
    layout: usize,
    level: usize,
) -> (r: usize)
    ensures
        r as int == xkb_syms_of(keymap, keycode, layout as int, level as int).len(),
{
    match keymap.key_get_syms_by_level(keycode, layout, level) {
        Ok(syms) => syms.len(),
        Err(_) => 0,
    }
}

/// Relies on Keymap::key_get_syms_by_level and Keysym::raw: the value of
/// one symbol of the key at the level in the layout.
#[verifier::external_body]
fn xkb_keymap_sym_at(
    keymap: &xkbcommon_rs::Keymap,
    keycode: u32,
    layout: usize,
    level: usize,
    index: usize,
) -> (r: Option<u32>)
    ensures
        match r {
            Some(sym) => (index as int) < xkb_syms_of(keymap, keycode, layout as int,
                level as int).len() && sym == xkb_syms_of(keymap, keycode, layout as int,
                level as int)[index as int],
            None => (index as int) >= xkb_syms_of(keymap, keycode, layout as int,
                level as int).len(),
        },
{
    match keymap.key_get_syms_by_level(keycode, layout, level) {
        Ok(syms) => match syms.get(index) {
            Some(sym) => Some(sym.raw()),
            None => None,
        },
        Err(_) => None,
    }
}

/// Relies on Keymap::layout_get_name: the human readable name of the
/// layout, when the keymap names it.
#[verifier::external_body]
fn xkb_keymap_layout_name(keymap: &xkbcommon_rs::Keymap, layout: usize) -> (r: Option<String>)
    ensures
        match r {
            Some(name) => xkb_layout_name_of(keymap, layout as int) == Some(name@),
            None => xkb_layout_name_of(keymap, layout as int) is None,
        },
{
    match keymap.layout_get_name(layout) {
        Some(name) => Some(name.to_string()),
        None => None,
    }
}

/// Relies on Keymap::led_get_index: whether the keymap defines the named
/// LED.
#[verifier::external_body]
fn xkb_keymap_has_led(keymap: &xkbcommon_rs::Keymap, name: &str) -> (r: bool)
    ensures
        r == xkb_has_led_of(keymap, name@),
{
    keymap.led_get_index(name).is_some()
}

/// How many layouts of a compiled keymap are taken into the model.
pub const MAX_MODEL_LAYOUTS: usize = 32;

/// How many shift levels of a key are taken into the model.
pub const MAX_MODEL_LEVELS: usize = 8;

/// How many key codes past the lowest are taken into the model.
pub const MAX_MODEL_KEYS: u32 = 768;

/// How many symbols of one level are taken into the model.
pub const MAX_MODEL_SYMS: usize = 16;

/// The layout count the model takes: the keymap's, up to the cap.
pub open spec fn spec_capped_layout_count(keymap: &xkbcommon_rs::Keymap) -> int {
    if xkb_layout_count_of(keymap) < MAX_MODEL_LAYOUTS as int {
        xkb_layout_count_of(keymap)
    } else {
        MAX_MODEL_LAYOUTS as int
    }
}

/// The lowest keycode the model takes.
pub open spec fn spec_model_min_keycode(keymap: &xkbcommon_rs::Keymap) -> u32 {
    if xkb_min_keycode_of(keymap) < 0xfffff000u32 {
        xkb_min_keycode_of(keymap)
    } else {
        0xfffff000u32
    }
}

/// The highest keycode the model takes: the keymap's, kept within the
/// modeled span past the lowest one.
pub open spec fn spec_model_max_keycode(keymap: &xkbcommon_rs::Keymap) -> u32 {
    let mn = spec_model_min_keycode(keymap);
    let mx = xkb_max_keycode_of(keymap);
    if mx < mn {
        mn
    } else if mx - mn > MAX_MODEL_KEYS {
        (mn + MAX_MODEL_KEYS) as u32
    } else {
        mx
    }
}

/// The level count the model takes for a key: the keymap's, up to the
/// cap.
pub open spec fn spec_capped_level_count(
    keymap: &xkbcommon_rs::Keymap,
    keycode: u32,
    layout: int,
) -> int {
    if xkb_level_count_of(keymap, keycode, layout) < MAX_MODEL_LEVELS as int {
        xkb_level_count_of(keymap, keycode, layout)
    } else {
        MAX_MODEL_LEVELS as int
    }
}

/// The symbols the model takes for one level: the keymap's, up to the
/// cap.
pub open spec fn spec_syms_capped(
    keymap: &xkbcommon_rs::Keymap,
    keycode: u32,
    layout: int,
    level: int,
) -> Seq<u32> {
    let s = xkb_syms_of(keymap, keycode, layout, level);
    if s.len() <= MAX_MODEL_SYMS {
        s
    } else {
        s.take(MAX_MODEL_SYMS as int)
    }
}

/// Whether one key's model entry agrees with the compiled keymap: a key
/// with any symbol in the modeled levels resolves to a mapping carrying
/// exactly the keymap's symbol lists, and a key without one resolves to
/// nothing.
pub open spec fn spec_key_entry_matches(
    keymap: &xkbcommon_rs::Keymap,
    keys: Seq<KeyMapping>,
    layout: int,
    keycode: u32,
) -> bool {
    match spec_find_key(keys, keycode) {
        Some(k) => {
            &&& k.levels@.len() == spec_capped_level_count(keymap, keycode, layout)
            &&& (forall|lv: int|
                0 <= lv < k.levels@.len() ==> (#[trigger] k.levels@[lv])@ == spec_syms_capped(
                    keymap, keycode, layout, lv))
            &&& exists|lv: int|
                0 <= lv < k.levels@.len() && spec_syms_capped(keymap, keycode, layout,
                    lv).len() > 0
        },
        None => forall|lv: int|
            0 <= lv < spec_capped_level_count(keymap, keycode, layout) ==> spec_syms_capped(
                keymap, keycode, layout, lv).len() == 0,
    }
}

/// Whether one model layout agrees with a layout of the compiled
/// keymap: its name where the keymap has one, and every keycode of the
/// modeled range resolved per [`spec_key_entry_matches`]; keycodes
/// outside the range resolve to nothing.
pub open spec fn spec_layout_matches(
    keymap: &xkbcommon_rs::Keymap,
    layout_def: LayoutDef,
    layout: int,
) -> bool {
    &&& layout_def.name@ == match xkb_layout_name_of(keymap, layout) {
        Some(n) => n,
        None => Seq::<char>::empty(),
    }
    &&& forall|kc: u32|
        spec_model_min_keycode(keymap) <= kc <= spec_model_max_keycode(keymap)
            ==> spec_key_entry_matches(keymap, layout_def.keys@, layout, kc)
    &&& forall|kc: u32|
        !(spec_model_min_keycode(keymap) <= kc <= spec_model_max_keycode(keymap))
            ==> spec_find_key(layout_def.keys@, kc) is None
}

/// The values of the symbols of a key at one level, read one by one.
fn syms_at_level(
    compiled: &xkbcommon_rs::Keymap,
    keycode: u32,
    layout: usize,
    level: usize,
) -> (r: Vec<u32>)
    ensures
        r@ == spec_syms_capped(compiled, keycode, layout as int, level as int),
{
    let ghost s = spec_syms_capped(compiled, keycode, layout as int, level as int);
    let n_raw = xkb_keymap_num_syms_at(compiled, keycode, layout, level);
    let n: usize = if n_raw < MAX_MODEL_SYMS {
        n_raw
    } else {
        MAX_MODEL_SYMS
    };
    proof {
        assert(n as int == s.len());
    }
    let mut r: Vec<u32> = Vec::new();
    let mut i: usize = 0;
    while i < n
        invariant
            s == spec_syms_capped(compiled, keycode, layout as int, level as int),
            n as int == s.len(),
            i <= n,
            r@ == s.take(i as int),
        decreases n - i,
    {
        match xkb_keymap_sym_at(compiled, keycode, layout, level, i) {
            Some(sym) => {
                r.push(sym);
                proof {
                    assert(r@ =~= s.take(i + 1));
                }
            },
            None => {
                proof {
                    assert(false);
                }
            },
        }
        i = i + 1;
    }
    proof {
        assert(r@ =~= s);
    }
    r
}

/// Read a compiled keymap out into the library's keymap model: its
/// serialized text, each layout's keys with their symbols per shift
/// level, and which of the three well-known LEDs the keymap defines,
/// wired to the locked modifier masks that drive them in this model.
/// The model equals the compiled keymap's named contents up to the
/// model's caps.
pub fn keymap_from_compiled(compiled: &xkbcommon_rs::Keymap) -> (r: KeymapModel)
    ensures
        r.wf(),
        r.text@ == xkb_text_of(compiled),
        r.layouts@.len() == spec_capped_layout_count(compiled),
        forall|li: int|
            0 <= li < r.layouts@.len() ==> spec_layout_matches(compiled, #[trigger] r.layouts@[
                li], li),
        r.leds.num == if xkb_has_led_of(compiled, "Num Lock"@) {
            Some(MOD_MASK_MOD2)
        } else {
            None::<u32>
        },
        r.leds.caps == if xkb_has_led_of(compiled, "Caps Lock"@) {
            Some(MOD_MASK_LOCK)
        } else {
            None::<u32>
        },
        r.leds.scroll == if xkb_has_led_of(compiled, "Scroll Lock"@) {
            Some(MOD_MASK_MOD3)
        } else {
            None::<u32>
        },
{
    let text = match xkb_keymap_as_string(compiled) {
        Some(t) => t,
        None => vstd::pervasive::unreached(),
    };
    let n_layouts_raw = xkb_keymap_num_layouts(compiled);
    let n_layouts: usize = if n_layouts_raw < MAX_MODEL_LAYOUTS {
        n_layouts_raw
    } else {
        MAX_MODEL_LAYOUTS
    };
    let min_kc_raw = xkb_keymap_min_keycode(compiled);
    let min_kc: u32 = if min_kc_raw < 0xfffff000 {
        min_kc_raw
    } else {
        0xfffff000
    };
    let max_kc_raw = xkb_keymap_max_keycode(compiled);
    let max_kc: u32 = if max_kc_raw < min_kc {
        min_kc
    } else if max_kc_raw - min_kc > MAX_MODEL_KEYS {
        min_kc + MAX_MODEL_KEYS
    } else {
        max_kc_raw
    };
    proof {
        assert(n_layouts as int == spec_capped_layout_count(compiled));
        assert(min_kc == spec_model_min_keycode(compiled));
        assert(max_kc == spec_model_max_keycode(compiled));
    }
    let mut layouts: Vec<LayoutDef> = Vec::new();
    let mut li: usize = 0;
    while li < n_layouts
        invariant
            n_layouts <= MAX_MODEL_LAYOUTS,
            n_layouts as int == spec_capped_layout_count(compiled),
            li <= n_layouts,
            layouts@.len() == li,
            forall|lj: int|
                0 <= lj < li ==> spec_layout_matches(compiled, #[trigger] layouts@[lj], lj),
            min_kc <= 0xfffff000u32,
            min_kc <= max_kc,
            max_kc <= min_kc + MAX_MODEL_KEYS,
            min_kc == spec_model_min_keycode(compiled),
            max_kc == spec_model_max_keycode(compiled),
        decreases n_layouts - li,
    {
        let name = match xkb_keymap_layout_name(compiled, li) {
            Some(n) => n,
            None => String::new(),
        };
        proof {
            assert(name@ == match xkb_layout_name_of(compiled, li as int) {
                Some(n) => n,
                None => Seq::<char>::empty(),
            }) by {
                if xkb_layout_name_of(compiled, li as int) is None {
                    assert(name@ =~= Seq::<char>::empty());
                }
            };
        }
        let mut keys: Vec<KeyMapping> = Vec::new();
        let mut kc: u32 = min_kc;
        while kc <= max_kc
            invariant
                min_kc <= 0xfffff000u32,
                min_kc <= kc,
                kc <= max_kc + 1,
                max_kc <= min_kc + MAX_MODEL_KEYS,
                min_kc == spec_model_min_keycode(compiled),
                max_kc == spec_model_max_keycode(compiled),
                li < n_layouts,
                forall|kc2: u32|
                    min_kc <= kc2 < kc ==> spec_key_entry_matches(compiled, keys@, li as int,
                        kc2),
                forall|kc2: u32|
                    !(min_kc <= kc2 < kc) ==> spec_find_key(keys@, kc2) is None,
            decreases max_kc + 1 - kc,
        {
            let n_levels_raw = xkb_keymap_num_levels(compiled, kc, li);
            let n_levels: usize = if n_levels_raw < MAX_MODEL_LEVELS {
                n_levels_raw
            } else {
                MAX_MODEL_LEVELS
            };
            proof {
                assert(n_levels as int == spec_capped_level_count(compiled, kc, li as int));
            }
            let mut levels: Vec<Vec<u32>> = Vec::new();
            let mut any_sym = false;
            let mut level: usize = 0;
            while level < n_levels
                invariant
                    n_levels <= MAX_MODEL_LEVELS,
                    level <= n_levels,
                    levels@.len() == level,
                    forall|lv: int|
                        0 <= lv < level ==> (#[trigger] levels@[lv])@ == spec_syms_capped(
                            compiled, kc, li as int, lv),
                    any_sym == exists|lv: int|
                        0 <= lv < level && spec_syms_capped(compiled, kc, li as int,
                            lv).len() > 0,
                decreases n_levels - level,
            {
                let syms = syms_at_level(compiled, kc, li, level);
                let had_sym = syms.len() > 0;
                levels.push(syms);
                let ghost was_any = any_sym;
                if had_sym {
                    any_sym = true;
                }
                proof {
                    if any_sym {
                        if had_sym {
                            assert(spec_syms_capped(compiled, kc, li as int,
                                level as int).len() > 0);
                        } else {
                            let w = choose|lv: int|
                                0 <= lv < level && spec_syms_capped(compiled, kc, li as int,
                                    lv).len() > 0;
                            assert(0 <= w < level + 1 && spec_syms_capped(compiled, kc,
                                li as int, w).len() > 0);
                        }
                    } else {
                        assert forall|lv: int|
                            0 <= lv < level + 1 implies !(spec_syms_capped(compiled, kc,
                            li as int, lv).len() > 0) by {
                            if lv < level {
                                assert(!was_any);
                            }
                        };
                    }
                }
                level = level + 1;
            }
            let ghost keys0 = keys@;
            if any_sym {
                keys.push(KeyMapping { keycode: kc, levels });
                proof {
                    let entry = keys@.last();
                    assert(keys@ == keys0.push(entry));
                    assert(entry.keycode == kc);
                    assert(entry.levels@.len() == level);
                    assert forall|kc2: u32|
                        min_kc <= kc2 < kc + 1 implies spec_key_entry_matches(compiled, keys@,
                        li as int, kc2) by {
                        lemma_find_key_push(keys0, entry, kc2);
                        if kc2 == kc {
                            assert(spec_find_key(keys0, kc) is None);
                            assert(spec_find_key(keys@, kc) == Some(entry));
                            let w = choose|lv: int|
                                0 <= lv < level && spec_syms_capped(compiled, kc, li as int,
                                    lv).len() > 0;
                            assert(0 <= w < entry.levels@.len() && spec_syms_capped(compiled,
                                kc, li as int, w).len() > 0);
                        } else {
                            assert(spec_key_entry_matches(compiled, keys0, li as int, kc2));
                            assert(spec_find_key(keys@, kc2) == spec_find_key(keys0, kc2));
                        }
                    };
                    assert forall|kc2: u32|
                        !(min_kc <= kc2 < kc + 1) implies spec_find_key(keys@, kc2) is None by {
                        lemma_find_key_push(keys0, entry, kc2);
                    };
                }
            } else {
                proof {
                    assert forall|kc2: u32|
                        min_kc <= kc2 < kc + 1 implies spec_key_entry_matches(compiled, keys@,
                        li as int, kc2) by {
                        if kc2 == kc {
                            assert(spec_find_key(keys@, kc) is None);
                            assert forall|lv: int|
                                0 <= lv < spec_capped_level_count(compiled, kc, li as int)
                                implies spec_syms_capped(compiled, kc, li as int, lv).len()
                                == 0 by {
                                assert(!(exists|lv2: int|
                                    0 <= lv2 < n_levels && spec_syms_capped(compiled, kc,
                                        li as int, lv2).len() > 0));
                            };
                        }
                    };
                }
            }
            kc = kc + 1;
        }
        let ghost layouts0 = layouts@;
        let layout_def = LayoutDef { name, keys };
        proof {
            assert(spec_layout_matches(compiled, layout_def, li as int));
        }
        layouts.push(layout_def);
        proof {
            assert forall|lj: int|
                0 <= lj < li + 1 implies spec_layout_matches(compiled, #[trigger] layouts@[lj],
                lj) by {
                if lj < li {
                    assert(layouts@[lj] == layouts0[lj]);
                }
            };
        }
        li = li + 1;
    }
    let leds = LedDefs {
        num: if xkb_keymap_has_led(compiled, "Num Lock") {
            Some(MOD_MASK_MOD2)
        } else {
            None
        },
        caps: if xkb_keymap_has_led(compiled, "Caps Lock") {
            Some(MOD_MASK_LOCK)
        } else {
            None
        },
        scroll: if xkb_keymap_has_led(compiled, "Scroll Lock") {
            Some(MOD_MASK_MOD3)
        } else {
            None
        },
    };
    KeymapModel { layouts, leds, text }
}

impl XkbConfig {
    /// Compile this configuration into the library's keymap model,
    /// through the keymap compiler on this machine. Whether compilation
    /// succeeds depends on the rule files present; a model handed back
    /// is well formed and, per [`keymap_from_compiled`], equals the
    /// compiled keymap's contents up to the model's caps.
    pub fn compile_keymap(&self) -> (r: Result<KeymapModel, KeyboardError>)
        ensures
            match r {
                Ok(km) => km.wf(),
                Err(e) => e == KeyboardError::BadKeymap,
            },
    {
        let context = match xkb_context_new() {
            Some(c) => c,
            None => vstd::pervasive::unreached(),
        };
        let compiled = match xkb_keymap_from_names(context, self) {
            Ok(km) => km,
            Err(_) => {
                return Err(KeyboardError::BadKeymap);
            },
        };
        Ok(keymap_from_compiled(&compiled))
    }
}

/// The bytes of the include keyword, which marks a keymap text that
/// would pull in files of this machine.
pub open spec fn spec_include_marker() -> Seq<u8> {
    seq![0x69u8, 0x6eu8, 0x63u8, 0x6cu8, 0x75u8, 0x64u8, 0x65u8]
}

impl KeyboardHandle {
    /// Replace the keymap from a keymap text in the textual wire format.
    ///
    /// On success the pressed keys are replayed into the fresh state and
    /// the new keymap is pushed to every still-alive client; a text the
    /// compiler rejects leaves every part of the keyboard unchanged and
    /// the previous keymap authoritative. A text holding the include
    /// keyword is rejected up front: the compiler would resolve it
    /// against files of this machine and aborts on malformed ones, and a
    /// complete serialized keymap never holds one.
    pub fn set_keymap_from_string(&mut self, serials: &mut SerialCounter, text: &str) -> (r:
        Result<(), KeyboardError>)
        requires
            old(self).wf(),
            old(self).next_keymap_id < u64::MAX,
            old(serials).next < u64::MAX,
        ensures
            final(self).wf(),
            spec_contains_seq(text.spec_bytes(), spec_include_marker()) ==> r is Err,
            match r {
                Ok(u) => {
                    &&& final(self).internal.xkb.state.pressed.seq_view() == old(
                        self).internal.xkb.state.pressed.seq_view()
                    &&& final(self).internal.mods_state == crate::xkb::spec_mods_state_of(
                        final(self).internal.xkb.state)
                    &&& final(self).internal.xkb.state.locked == crate::xkb::spec_replay_locked(
                        final(self).internal.xkb.state.keymap,
                        old(self).internal.xkb.state.pressed.seq_view())
                    &&& final(self).internal.forwarded_pressed_keys == old(
                        self).internal.forwarded_pressed_keys
                    &&& final(self).internal.focus == old(self).internal.focus
                    &&& old(self).keymap_file.id < final(self).keymap_file.id
                    &&& final(self).active_keymap == final(self).keymap_file.id
                },
                Err(e) => {
                    &&& e == KeyboardError::BadKeymap
                    &&& *final(self) == *old(self)
                    &&& *final(serials) == *old(serials)
                },
            },
    {
        let bytes = text.as_bytes_vec();
        let mut marker: Vec<u8> = Vec::new();
        marker.push(0x69);
        marker.push(0x6e);
        marker.push(0x63);
        marker.push(0x6c);
        marker.push(0x75);
        marker.push(0x64);
        marker.push(0x65);
        proof {
            assert(marker@ =~= spec_include_marker());
        }
        if contains_bytes(&bytes, &marker) {
            return Err(KeyboardError::BadKeymap);
        }
        let context = match xkb_context_new() {
            Some(c) => c,
            None => vstd::pervasive::unreached(),
        };
        let compiled = match xkb_keymap_from_string(context, text) {
            Ok(km) => km,
            Err(_) => {
                return Err(KeyboardError::BadKeymap);
            },
        };
        let keymap = keymap_from_compiled(&compiled);
        self.set_keymap(serials, keymap);
        Ok(())
    }

    /// Replace the keymap from a compiler configuration.
    ///
    /// On success the pressed keys are replayed into the fresh state and
    /// the new keymap is pushed to every still-alive client; a
    /// configuration the compiler rejects leaves every part of the
    /// keyboard unchanged and the previous keymap authoritative.
    pub fn set_xkb_config(&mut self, serials: &mut SerialCounter, config: &XkbConfig) -> (r:
        Result<(), KeyboardError>)
        requires
            old(self).wf(),
            old(self).next_keymap_id < u64::MAX,
            old(serials).next < u64::MAX,
        ensures
            final(self).wf(),
            match r {
                Ok(u) => {
                    &&& final(self).internal.xkb.state.pressed.seq_view() == old(
                        self).internal.xkb.state.pressed.seq_view()
                    &&& final(self).internal.mods_state == crate::xkb::spec_mods_state_of(
                        final(self).internal.xkb.state)
                    &&& final(self).internal.xkb.state.locked == crate::xkb::spec_replay_locked(
                        final(self).internal.xkb.state.keymap,
                        old(self).internal.xkb.state.pressed.seq_view())
                    &&& final(self).internal.forwarded_pressed_keys == old(
                        self).internal.forwarded_pressed_keys
                    &&& final(self).internal.focus == old(self).internal.focus
                    &&& old(self).keymap_file.id < final(self).keymap_file.id
                    &&& final(self).active_keymap == final(self).keymap_file.id
                },
                Err(e) => {
                    &&& e == KeyboardError::BadKeymap
                    &&& *final(self) == *old(self)
                    &&& *final(serials) == *old(serials)
                },
            },
    {
        let keymap = match config.compile_keymap() {
            Ok(km) => km,
            Err(e) => {
                return Err(e);
            },
        };
        self.set_keymap(serials, keymap);
        Ok(())
    }
}

} // verus!
