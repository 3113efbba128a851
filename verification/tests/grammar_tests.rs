use keytree::combination::{Combination, Modifiers};
use keytree::error::Error;
use keytree::keysym::{default_table, is_modifier, name_to_sym, sym_to_name};

fn all_flags() -> Modifiers {
    Modifiers { control: true, alt: true, meta: true, hyper: true, superr: true }
}

#[test]
fn format_uses_fixed_flag_order() {
    let table = default_table();
    let t = name_to_sym(&table, "t").unwrap();
    let c = Combination { key: t, modifiers: all_flags() };
    assert_eq!(c.format(&table), "C-S-M-A-H-t");
}

#[test]
fn parse_accepts_any_flag_order() {
    let table = default_table();
    let t = name_to_sym(&table, "t").unwrap();
    let c = Combination::parse(&table, "H-A-M-S-C-t").unwrap();
    assert_eq!(c.key, t);
    assert!(c.modifiers.control);
    assert!(c.modifiers.alt);
    assert!(c.modifiers.meta);
    assert!(c.modifiers.hyper);
    assert!(c.modifiers.superr);
    assert_eq!(c.format(&table), "C-S-M-A-H-t");
}

#[test]
fn roundtrip_is_idempotent() {
    let table = default_table();
    let t = name_to_sym(&table, "t").unwrap();
    let c = Combination { key: t, modifiers: all_flags() };
    let once = c.format(&table);
    let again = Combination::parse(&table, once.as_str()).unwrap().format(&table);
    assert_eq!(again, once);
    // and on a plain key with no modifiers
    let f6 = name_to_sym(&table, "F6").unwrap();
    let c2 = Combination {
        key: f6,
        modifiers: Modifiers { control: false, alt: false, meta: false, hyper: false, superr: false },
    };
    let s = c2.format(&table);
    assert_eq!(s, "F6");
    let back = Combination::parse(&table, s.as_str()).unwrap();
    assert_eq!(back.key, f6);
    assert_eq!(back.format(&table), "F6");
}

#[test]
fn parse_long_modifier_names() {
    let table = default_table();
    let c = Combination::parse(&table, "Control-Super-Meta-Alt-Hyper-space").unwrap();
    assert!(c.modifiers.control && c.modifiers.superr && c.modifiers.meta);
    assert!(c.modifiers.alt && c.modifiers.hyper);
    assert_eq!(c.format(&table), "C-S-M-A-H-space");
}

#[test]
fn parse_ignores_unknown_modifier_tokens() {
    let table = default_table();
    let c = Combination::parse(&table, "Q-C-x").unwrap();
    assert!(c.modifiers.control);
    assert!(!c.modifiers.alt && !c.modifiers.meta && !c.modifiers.hyper && !c.modifiers.superr);
    assert_eq!(c.format(&table), "C-x");
}

#[test]
fn parse_unknown_key_fails() {
    let table = default_table();
    match Combination::parse(&table, "C-notakey") {
        Err(Error::UnknownKey) => {}
        _ => panic!("expected UnknownKey"),
    }
}

#[test]
fn sym_to_name_falls_back_to_code() {
    let table = default_table();
    assert_eq!(sym_to_name(&table, 0x1234567), "<19088743>");
    assert_eq!(sym_to_name(&table, 0xffc3), "F6");
}

#[test]
fn name_to_sym_known_and_unknown() {
    let table = default_table();
    assert_eq!(name_to_sym(&table, "a"), Some(0x61));
    assert_eq!(name_to_sym(&table, "zz"), None);
}

#[test]
fn modifier_keys_are_classified() {
    let table = default_table();
    assert!(is_modifier(&table, 0xffe1)); // Shift_L
    assert!(is_modifier(&table, 0xffee)); // Hyper_R
    assert!(is_modifier(&table, 0xff7e)); // Mode_switch
    assert!(is_modifier(&table, 0xff7f)); // Num_Lock
    assert!(is_modifier(&table, 0xfe01)); // ISO_Lock
    assert!(is_modifier(&table, 0xfe13)); // ISO_Level5_Lock
    assert!(!is_modifier(&table, 0x61)); // a
    assert!(!is_modifier(&table, 0xffc3)); // F6
}
