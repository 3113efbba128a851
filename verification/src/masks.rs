//! The modifier resolver: computes, from the live keyboard mapping's
//! modifier table, which physical modifier bits play the logical Meta, Alt,
//! Super, Hyper, NumLock and ScrollLock roles, and translates between
//! logical modifier flags and physical state masks.
//!
//! The Meta/Alt tie-break is long-standing behaviour of the daemon and is
//! kept exactly: whenever any Meta key is reported, the Alt mask is moved
//! into the Meta role and the Alt mask is cleared.

use vstd::prelude::*;
use crate::combination::Modifiers;
use crate::keysym::{SymbolTable, sym_to_name};
use crate::strutil::str_eq;

verus! {

pub const MOD_MASK_SHIFT: u32 = 1;

pub const MOD_MASK_LOCK: u32 = 2;

pub const MOD_MASK_CONTROL: u32 = 4;

pub const MOD_MASK_1: u32 = 8;

pub const MOD_MASK_2: u32 = 16;

pub const MOD_MASK_3: u32 = 32;

pub const MOD_MASK_4: u32 = 64;

pub const MOD_MASK_5: u32 = 128;

/// The resolved physical masks of the six logical roles.
#[derive(Clone, Copy, PartialEq, Eq, Structural, Debug)]
pub struct Masks {
    pub meta: u32,
    pub alt: u32,
    pub superr: u32,
    pub hyper: u32,
    pub num_lock: u32,
    pub scroll_lock: u32,
}

/// Whether the modifier-table position `p` lies in group `g` and its key's
/// primary symbol name is `a` or `b`.
pub open spec fn spec_pos_hit(
    t: SymbolTable,
    syms: Seq<u32>,
    keys: Seq<u8>,
    n: int,
    g: int,
    a: Seq<char>,
    b: Seq<char>,
    p: int,
) -> bool {
    let nm = t.spec_sym_to_name(syms[keys[p] as int]);
    p / n == g && (nm == a || nm == b)
}

/// Whether some key of modifier group `g` names the role given by `a`/`b`.
pub open spec fn spec_group_hit(
    t: SymbolTable,
    syms: Seq<u32>,
    keys: Seq<u8>,
    n: int,
    g: int,
    a: Seq<char>,
    b: Seq<char>,
) -> bool {
    exists|p: int| 0 <= p < keys.len() && #[trigger] spec_pos_hit(t, syms, keys, n, g, a, b, p)
}

/// The physical mask of one logical role: the OR of every `Mod1..Mod5`
/// group bit whose group holds a key naming the role.
pub open spec fn spec_role_mask(
    t: SymbolTable,
    syms: Seq<u32>,
    keys: Seq<u8>,
    n: int,
    a: Seq<char>,
    b: Seq<char>,
) -> u32 {
    (if spec_group_hit(t, syms, keys, n, 3, a, b) { MOD_MASK_1 } else { 0u32 })
    | (if spec_group_hit(t, syms, keys, n, 4, a, b) { MOD_MASK_2 } else { 0u32 })
    | (if spec_group_hit(t, syms, keys, n, 5, a, b) { MOD_MASK_3 } else { 0u32 })
    | (if spec_group_hit(t, syms, keys, n, 6, a, b) { MOD_MASK_4 } else { 0u32 })
    | (if spec_group_hit(t, syms, keys, n, 7, a, b) { MOD_MASK_5 } else { 0u32 })
}

/// The resolved masks before the Meta/Alt adjustment.
pub open spec fn spec_raw_masks(
    t: SymbolTable,
    syms: Seq<u32>,
    keys: Seq<u8>,
    n: int,
) -> Masks {
    Masks {
        meta: spec_role_mask(t, syms, keys, n, "Meta_L"@, "Meta_R"@),
        alt: spec_role_mask(t, syms, keys, n, "Alt_L"@, "Alt_R"@),
        superr: spec_role_mask(t, syms, keys, n, "Super_L"@, "Super_R"@),
        hyper: spec_role_mask(t, syms, keys, n, "Hyper_L"@, "Hyper_R"@),
        num_lock: spec_role_mask(t, syms, keys, n, "Num_Lock"@, "Num_Lock"@),
        scroll_lock: spec_role_mask(t, syms, keys, n, "Scroll_Lock"@, "Scroll_Lock"@),
    }
}

/// The fully resolved masks: the raw masks with the Meta/Alt tie-break
/// applied, then any Meta/Alt overlap cleared from Alt.
pub open spec fn spec_resolved_masks(
    t: SymbolTable,
    syms: Seq<u32>,
    keys: Seq<u8>,
    n: int,
) -> Masks {
    let raw = spec_raw_masks(t, syms, keys, n);
    let meta2 = if raw.meta != 0 { raw.alt } else { raw.meta };
    let alt2 = if raw.meta != 0 { 0u32 } else { raw.alt };
    let alt3 = if alt2 & meta2 != 0 { alt2 & !meta2 } else { alt2 };
    Masks {
        meta: meta2,
        alt: alt3,
        superr: raw.superr,
        hyper: raw.hyper,
        num_lock: raw.num_lock,
        scroll_lock: raw.scroll_lock,
    }
}

/// Whether some key of group `g` resolves to name `a` or `b`.
fn group_hit(
    table: &SymbolTable,
    syms: &Vec<u32>,
    keys: &Vec<u8>,
    n: usize,
    g: usize,
    a: &str,
    b: &str,
) -> (r: bool)
    requires
        n > 0,
        forall|p: int| 0 <= p < keys@.len() ==> (#[trigger] keys@[p]) < syms@.len(),
    ensures
        r == spec_group_hit(*table, syms@, keys@, n as int, g as int, a@, b@),
{
    let mut p: usize = 0;
    while p < keys.len()
        invariant
            p <= keys@.len(),
            n > 0,
            forall|q: int| 0 <= q < keys@.len() ==> (#[trigger] keys@[q]) < syms@.len(),
            forall|q: int| 0 <= q < p
                ==> !spec_pos_hit(*table, syms@, keys@, n as int, g as int, a@, b@, q),
        decreases keys@.len() - p,
    {
        if p / n == g {
            let name = sym_to_name(table, syms[keys[p] as usize]);
            if str_eq(name.as_str(), a) || str_eq(name.as_str(), b) {
                proof {
                    assert(spec_pos_hit(
                        *table, syms@, keys@, n as int, g as int, a@, b@, p as int,
                    ));
                }
                return true;
            }
        }
        proof {
            assert(!spec_pos_hit(*table, syms@, keys@, n as int, g as int, a@, b@, p as int));
        }
        p = p + 1;
    }
    false
}

/// The physical mask of one logical role.
fn role_mask(
    table: &SymbolTable,
    syms: &Vec<u32>,
    keys: &Vec<u8>,
    n: usize,
    a: &str,
    b: &str,
) -> (r: u32)
    requires
        n > 0,
        forall|p: int| 0 <= p < keys@.len() ==> (#[trigger] keys@[p]) < syms@.len(),
    ensures
        r == spec_role_mask(*table, syms@, keys@, n as int, a@, b@),
{
    let h3 = group_hit(table, syms, keys, n, 3, a, b);
    let h4 = group_hit(table, syms, keys, n, 4, a, b);
    let h5 = group_hit(table, syms, keys, n, 5, a, b);
    let h6 = group_hit(table, syms, keys, n, 6, a, b);
    let h7 = group_hit(table, syms, keys, n, 7, a, b);
    (if h3 { MOD_MASK_1 } else { 0u32 })
    | (if h4 { MOD_MASK_2 } else { 0u32 })
    | (if h5 { MOD_MASK_3 } else { 0u32 })
    | (if h6 { MOD_MASK_4 } else { 0u32 })
    | (if h7 { MOD_MASK_5 } else { 0u32 })
}

/// Resolves the six logical modifier masks from the keyboard's modifier
/// table: `syms` maps a keycode to its primary key symbol, `keys` lists the
/// keycodes of the eight modifier groups, `n` keycodes per group.
///
/// The Meta/Alt tie-break is kept exactly as the daemon has always
/// resolved it: when any Meta key is reported, the Meta role takes the
/// Alt mask and the Alt mask becomes zero — in particular the resolved
/// Alt mask is zero whenever the mapping reports a Meta key.
pub fn load_modifier_maps(
    table: &SymbolTable,
    syms: &Vec<u32>,
    keys: &Vec<u8>,
    n: usize,
) -> (r: Masks)
    requires
        n > 0,
        keys@.len() <= 8 * n,
        forall|p: int| 0 <= p < keys@.len() ==> (#[trigger] keys@[p]) < syms@.len(),
    ensures
        r == spec_resolved_masks(*table, syms@, keys@, n as int),
        spec_raw_masks(*table, syms@, keys@, n as int).meta != 0 ==> r.alt == 0,
{
    let meta_raw = role_mask(table, syms, keys, n, "Meta_L", "Meta_R");
    let alt_raw = role_mask(table, syms, keys, n, "Alt_L", "Alt_R");
    let superr = role_mask(table, syms, keys, n, "Super_L", "Super_R");
    let hyper = role_mask(table, syms, keys, n, "Hyper_L", "Hyper_R");
    let num_lock = role_mask(table, syms, keys, n, "Num_Lock", "Num_Lock");
    let scroll_lock = role_mask(table, syms, keys, n, "Scroll_Lock", "Scroll_Lock");

    let meta2 = if meta_raw != 0 { alt_raw } else { meta_raw };
    let alt2 = if meta_raw != 0 { 0u32 } else { alt_raw };
    let alt3 = if alt2 & meta2 != 0 { alt2 & !meta2 } else { alt2 };
    proof {
        assert(0u32 & meta2 == 0u32) by (bit_vector);
    }
    Masks {
        meta: meta2,
        alt: alt3,
        superr,
        hyper,
        num_lock,
        scroll_lock,
    }
}

impl Masks {
    /// The physical state mask of a logical modifier set.
    pub open spec fn spec_mask_to_x11(self, mods: Modifiers) -> u32 {
        (if mods.meta { self.meta } else { 0u32 })
        | (if mods.alt { self.alt } else { 0u32 })
        | (if mods.superr { self.superr } else { 0u32 })
        | (if mods.hyper { self.hyper } else { 0u32 })
        | (if mods.control { MOD_MASK_CONTROL } else { 0u32 })
    }

    /// Converts a logical modifier set to the physical state mask.
    pub fn mask_to_x11(&self, mods: Modifiers) -> (r: u32)
        ensures
            r == self.spec_mask_to_x11(mods),
    {
        (if mods.meta { self.meta } else { 0u32 })
        | (if mods.alt { self.alt } else { 0u32 })
        | (if mods.superr { self.superr } else { 0u32 })
        | (if mods.hyper { self.hyper } else { 0u32 })
        | (if mods.control { MOD_MASK_CONTROL } else { 0u32 })
    }

    /// The logical modifier set of a physical state mask.
    pub open spec fn spec_x11_to_mask(self, mask: u32) -> Modifiers {
        Modifiers {
            control: mask & MOD_MASK_CONTROL != 0,
            alt: mask & self.alt != 0,
            hyper: mask & self.hyper != 0,
            superr: mask & self.superr != 0,
            meta: mask & self.meta != 0,
        }
    }

    /// Converts a physical state mask to the logical modifier set.
    pub fn x11_to_mask(&self, mask: u32) -> (r: Modifiers)
        ensures
            r == self.spec_x11_to_mask(mask),
    {
        Modifiers {
            control: mask & MOD_MASK_CONTROL != 0,
            alt: mask & self.alt != 0,
            hyper: mask & self.hyper != 0,
            superr: mask & self.superr != 0,
            meta: mask & self.meta != 0,
        }
    }

    /// The key-press state mask with the lock bits removed, as the event
    /// classification removes them.
    pub open spec fn spec_clean_state(self, state: u32) -> u32 {
        state & !(MOD_MASK_LOCK | self.num_lock | self.scroll_lock)
    }

    /// Strips CapsLock, NumLock and ScrollLock from a key-press state mask.
    pub fn clean_state(&self, state: u32) -> (r: u32)
        ensures
            r == self.spec_clean_state(state),
    {
        state & !(MOD_MASK_LOCK | self.num_lock | self.scroll_lock)
    }
}

} // verus!
