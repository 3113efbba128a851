use keytree::keysym::{SymbolTable, SymEntry, name_to_sym, sym_to_name};

fn entry(name: &str, code: u32) -> SymEntry {
    SymEntry { name: name.to_owned(), code }
}

#[test]
fn duplicate_code_keeps_first_name() {
    let mut defs = Vec::new();
    defs.push(entry("first", 7));
    defs.push(entry("second", 7));
    let t = SymbolTable::from_defs(&defs).unwrap();
    assert_eq!(sym_to_name(&t, 7), "first");
}

#[test]
fn duplicate_name_overwrites_code() {
    let mut defs = Vec::new();
    defs.push(entry("same", 1));
    defs.push(entry("same", 2));
    let t = SymbolTable::from_defs(&defs).unwrap();
    assert_eq!(name_to_sym(&t, "same"), Some(2));
}

#[test]
fn dashed_name_is_refused() {
    let mut defs = Vec::new();
    defs.push(entry("with-dash", 1));
    assert!(SymbolTable::from_defs(&defs).is_none());
}

#[test]
fn empty_name_is_refused() {
    let mut defs = Vec::new();
    defs.push(entry("", 1));
    assert!(SymbolTable::from_defs(&defs).is_none());
}

#[test]
fn default_table_has_modifier_names() {
    let t = keytree::keysym::default_table();
    assert!(t.check_modifier_names());
    assert!(keytree::keysym::check_default_names(&t));
}

#[test]
fn default_table_is_coherent() {
    let t = keytree::keysym::default_table();
    assert!(t.check_coherent());
}

#[test]
fn default_table_covers_the_standard_sections() {
    let t = keytree::keysym::default_table();
    assert_eq!(name_to_sym(&t, "KP_Enter"), Some(0xff8d));
    assert_eq!(name_to_sym(&t, "Page_Up"), Some(0xff55));
    assert_eq!(name_to_sym(&t, "Page_Down"), Some(0xff56));
    assert_eq!(name_to_sym(&t, "dead_grave"), Some(0xfe50));
    assert_eq!(name_to_sym(&t, "eacute"), Some(0xe9));
    assert_eq!(name_to_sym(&t, "ssharp"), Some(0xdf));
    assert_eq!(name_to_sym(&t, "Greek_alpha"), Some(0x7e1));
    assert_eq!(name_to_sym(&t, "Cyrillic_zhe"), Some(0x6d6));
    assert_eq!(name_to_sym(&t, "EuroSign"), Some(0x20ac));
    assert_eq!(name_to_sym(&t, "VoidSymbol"), Some(0xffffff));
    assert_eq!(name_to_sym(&t, "braille_dots_12"), Some(0x1002803));
    assert_eq!(name_to_sym(&t, "Sinh_kunddaliya"), Some(0x1000df4));
}

#[test]
fn code_aliases_keep_the_first_name() {
    let t = keytree::keysym::default_table();
    // Page_Up shares its code with the earlier Prior definition
    assert_eq!(sym_to_name(&t, 0xff55), "Prior");
    assert_eq!(name_to_sym(&t, "Prior"), Some(0xff55));
    assert_eq!(name_to_sym(&t, "Page_Up"), Some(0xff55));
}

#[test]
fn keypad_combination_round_trips() {
    let t = keytree::keysym::default_table();
    let c = keytree::combination::Combination::parse(&t, "C-A-KP_Enter").unwrap();
    assert_eq!(c.key, 0xff8d);
    let s = c.format(&t);
    assert_eq!(s, "C-A-KP_Enter");
    let c2 = keytree::combination::Combination::parse(&t, s.as_str()).unwrap();
    assert_eq!(c2.format(&t), s);
}
