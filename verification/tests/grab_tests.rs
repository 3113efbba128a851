use keytree::combination::Modifiers;
use keytree::config::example;
use keytree::error::Error;
use keytree::grab::{grab_mask_list, grab_requests, root_grab_requests};
use keytree::keysym::default_table;
use keytree::masks::Masks;

fn masks_fixture() -> Masks {
    Masks { meta: 64, alt: 8, superr: 32, hyper: 128, num_lock: 16, scroll_lock: 4096 }
}

fn no_mods() -> Modifiers {
    Modifiers { control: false, alt: false, meta: false, hyper: false, superr: false }
}

#[test]
fn eight_lock_variants_in_order() {
    let m = masks_fixture();
    let mods = Modifiers { control: true, ..no_mods() };
    let list = grab_mask_list(&m, mods);
    let base = 4u32; // the control mask
    assert_eq!(list.len(), 8);
    assert_eq!(list[0], base);
    assert_eq!(list[1], base | 2);
    assert_eq!(list[2], base | 16);
    assert_eq!(list[3], base | 2 | 16);
    assert_eq!(list[4], base | 4096);
    assert_eq!(list[5], base | 2 | 4096);
    assert_eq!(list[6], base | 16 | 4096);
    assert_eq!(list[7], base | 2 | 16 | 4096);
}

#[test]
fn grab_requests_resolve_the_keycode() {
    let m = masks_fixture();
    let mut keycode_table = vec![0u32; 64];
    keycode_table[42] = 0xffc3; // F6 on keycode 42
    let reqs = grab_requests(&keycode_table, &m, 0xffc3, no_mods()).unwrap();
    assert_eq!(reqs.len(), 8);
    for r in &reqs {
        assert_eq!(r.keycode, 42);
    }
    assert_eq!(reqs[0].modifiers, 0);
    assert_eq!(reqs[7].modifiers, (2u32 | 16 | 4096) as u16);
}

#[test]
fn grab_requests_unknown_key() {
    let m = masks_fixture();
    let keycode_table = vec![0u32; 64];
    match grab_requests(&keycode_table, &m, 0xffc3, no_mods()) {
        Err(Error::UnknownKey) => {}
        _ => panic!("expected UnknownKey"),
    }
}

#[test]
fn root_plan_covers_every_root_combination() {
    let table = default_table();
    let m = masks_fixture();
    let mut keycode_table = vec![0u32; 128];
    keycode_table[40] = 0xffc3; // F6
    keycode_table[41] = 0xffc8; // F11
    keycode_table[42] = 0x63; // c
    let cfg = example();
    let reqs = root_grab_requests(&table, &keycode_table, &m, &cfg).unwrap();
    // three root combinations, eight requests each
    assert_eq!(reqs.len(), 24);
    assert_eq!(reqs[0].keycode, 40);
    assert_eq!(reqs[8].keycode, 41);
    assert_eq!(reqs[16].keycode, 42);
    // C-F6 carries the control mask, F11 carries none
    assert_eq!(reqs[0].modifiers, 4);
    assert_eq!(reqs[8].modifiers, 0);
    assert_eq!(reqs[16].modifiers, 4);
}

#[test]
fn root_plan_fails_on_missing_keycode() {
    let table = default_table();
    let m = masks_fixture();
    let keycode_table = vec![0u32; 128];
    let cfg = example();
    match root_grab_requests(&table, &keycode_table, &m, &cfg) {
        Err(Error::UnknownKey) => {}
        _ => panic!("expected UnknownKey"),
    }
}
