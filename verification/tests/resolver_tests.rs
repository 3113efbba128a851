use keytree::combination::Modifiers;
use keytree::keysym::default_table;
use keytree::masks::{load_modifier_maps, Masks, MOD_MASK_CONTROL};

fn sym_table_with(assignments: &[(usize, u32)]) -> Vec<u32> {
    let mut v = vec![0u32; 32];
    for (kc, sym) in assignments {
        v[*kc] = *sym;
    }
    v
}

#[test]
fn meta_and_alt_tie_break_clears_alt() {
    let table = default_table();
    // group 3 holds a Meta key, group 4 an Alt key
    let syms = sym_table_with(&[(10, 0xffe7), (11, 0xffe9)]);
    let keys: Vec<u8> = vec![0, 0, 0, 10, 11, 0, 0, 0];
    let m = load_modifier_maps(&table, &syms, &keys, 1);
    assert_eq!(m.alt, 0);
    // the observed behaviour: Meta takes over the Alt mask
    assert_eq!(m.meta, 16);
}

#[test]
fn alt_without_meta_keeps_its_mask() {
    let table = default_table();
    let syms = sym_table_with(&[(11, 0xffe9)]);
    let keys: Vec<u8> = vec![0, 0, 0, 0, 11, 0, 0, 0];
    let m = load_modifier_maps(&table, &syms, &keys, 1);
    assert_eq!(m.alt, 16);
    assert_eq!(m.meta, 0);
}

#[test]
fn meta_alone_takes_the_empty_alt_mask() {
    let table = default_table();
    let syms = sym_table_with(&[(10, 0xffe7)]);
    let keys: Vec<u8> = vec![0, 0, 0, 10, 0, 0, 0, 0];
    let m = load_modifier_maps(&table, &syms, &keys, 1);
    // literal behaviour: the Meta mask becomes the (empty) Alt mask
    assert_eq!(m.meta, 0);
    assert_eq!(m.alt, 0);
}

#[test]
fn lock_and_role_masks_accumulate() {
    let table = default_table();
    let syms = sym_table_with(&[
        (10, 0xff7f),  // Num_Lock in group 4
        (11, 0xff14),  // Scroll_Lock in group 6
        (12, 0xffeb),  // Super_L in group 3
        (13, 0xffed),  // Hyper_L in group 7
    ]);
    let keys: Vec<u8> = vec![0, 0, 0, 12, 10, 0, 11, 13];
    let m = load_modifier_maps(&table, &syms, &keys, 1);
    assert_eq!(m.superr, 8);
    assert_eq!(m.num_lock, 16);
    assert_eq!(m.scroll_lock, 64);
    assert_eq!(m.hyper, 128);
}

#[test]
fn two_keycodes_per_group() {
    let table = default_table();
    // n = 2: positions 6 and 7 are group 3; both are Super keys
    let syms = sym_table_with(&[(10, 0xffeb), (11, 0xffec)]);
    let keys: Vec<u8> = vec![0, 0, 0, 0, 0, 0, 10, 11, 0, 0, 0, 0, 0, 0, 0, 0];
    let m = load_modifier_maps(&table, &syms, &keys, 2);
    assert_eq!(m.superr, 8);
}

fn masks_fixture() -> Masks {
    Masks { meta: 64, alt: 8, superr: 32, hyper: 128, num_lock: 16, scroll_lock: 2 }
}

#[test]
fn logical_to_physical_mask() {
    let m = masks_fixture();
    let mods = Modifiers { control: true, alt: true, meta: false, hyper: false, superr: true };
    assert_eq!(m.mask_to_x11(mods), MOD_MASK_CONTROL | 8 | 32);
}

#[test]
fn physical_to_logical_mask() {
    let m = masks_fixture();
    let mods = m.x11_to_mask(MOD_MASK_CONTROL | 64);
    assert!(mods.control && mods.meta);
    assert!(!mods.alt && !mods.superr && !mods.hyper);
}

#[test]
fn clean_state_strips_lock_bits() {
    let m = masks_fixture();
    // CapsLock (2) is MOD_MASK_LOCK; num 16; scroll 2 overlaps lock here
    assert_eq!(m.clean_state(MOD_MASK_CONTROL | 2 | 16), MOD_MASK_CONTROL);
}
