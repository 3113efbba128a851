use keytree::action::{Action, ActionDesc, KeyMap};
use keytree::cmdline::parse_position;
use keytree::config::{choose_config_path, example};
use keytree::display::{get_largest_window, Display};
use keytree::error::Error;
use keytree::keyboard::{keycode_for, keysym_at, load_keycode_to_keysyms};
use keytree::listing::overlay_text;
use keytree::reaper::ChildTable;
use keytree::strutil::{parse_decimal, split_str, trim_str, u32_to_decimal};

#[test]
fn position_percent_is_scaled_and_centred() {
    assert_eq!(parse_position("%50", 100, 1000).unwrap(), 450);
    assert_eq!(parse_position("%100", 10, 100).unwrap(), 90);
}

#[test]
fn position_absolute_and_clamped() {
    assert_eq!(parse_position("250", 100, 1000).unwrap(), 200);
    // centring below zero clamps to zero
    assert_eq!(parse_position("0", 200, 300).unwrap(), 0);
    // beyond the far edge clamps to screen minus measure
    assert_eq!(parse_position("1000", 100, 600).unwrap(), 500);
}

#[test]
fn position_parse_failures() {
    assert!(matches!(parse_position("%abc", 10, 100), Err(Error::NumberParse)));
    assert!(matches!(parse_position("", 10, 100), Err(Error::NumberParse)));
    assert!(matches!(parse_position("12x", 10, 100), Err(Error::NumberParse)));
    assert!(matches!(parse_position("99999", 10, 100), Err(Error::NumberParse)));
}

#[test]
fn config_path_priorities() {
    let cli = Some("/cli/path.yaml".to_owned());
    let env = Some("/env/path.yaml".to_owned());
    let dir = Some("/home/u/.config".to_owned());
    assert_eq!(
        choose_config_path(cli.clone(), env.clone(), dir.clone()).unwrap(),
        "/cli/path.yaml"
    );
    assert_eq!(choose_config_path(None, env, dir.clone()).unwrap(), "/env/path.yaml");
    assert_eq!(
        choose_config_path(None, None, dir).unwrap(),
        "/home/u/.config/keytree/config.yaml"
    );
    assert!(matches!(choose_config_path(None, None, None), Err(Error::NoConfig)));
}

fn display(x: i32, y: i32, w: i32, h: i32) -> Display {
    Display { name: String::new(), x, y, height: h, width: w }
}

#[test]
fn largest_display_wins() {
    let displays = vec![
        display(0, 0, 100, 500),
        display(100, 50, 300, 200),
        display(400, 0, 200, 900),
    ];
    let ((x, y), (w, h)) = get_largest_window(&displays).unwrap();
    assert_eq!((x, y), (100, 50));
    assert_eq!((w, h), (300, 200));
}

#[test]
fn no_usable_display_fails() {
    let displays: Vec<Display> = Vec::new();
    assert!(matches!(get_largest_window(&displays), Err(Error::NoScreenFound)));
    let displays = vec![display(0, 0, 0, 600)];
    assert!(matches!(get_largest_window(&displays), Err(Error::NoScreenFound)));
}

#[test]
fn keycode_table_from_reply() {
    // min keycode 8, two symbols per keycode, three keycodes described
    let syms = vec![10u32, 11, 20, 21, 30, 31];
    let table = load_keycode_to_keysyms(8, 2, &syms);
    assert_eq!(table.len(), 11);
    assert_eq!(keysym_at(&table, 7), 0);
    assert_eq!(keysym_at(&table, 8), 10);
    assert_eq!(keysym_at(&table, 9), 20);
    assert_eq!(keysym_at(&table, 10), 30);
    assert_eq!(keysym_at(&table, 11), 0);
    assert_eq!(keycode_for(&table, 20), Some(9));
    assert_eq!(keycode_for(&table, 99), None);
}

#[test]
fn duplicate_symbol_takes_the_highest_keycode() {
    let syms = vec![5u32, 0, 5, 0];
    let table = load_keycode_to_keysyms(8, 2, &syms);
    assert_eq!(keycode_for(&table, 5), Some(9));
}

#[test]
fn reaper_keeps_only_live_children() {
    let mut t = ChildTable::new();
    // three spawned scripts; the first two terminate before the third spawn
    t.reap(&Vec::new());
    t.track(101);
    t.reap(&vec![false]);
    t.track(102);
    // both earlier children have exited by now; reap precedes the spawn
    t.reap(&vec![true, true]);
    t.track(103);
    assert_eq!(t.len(), 1);
    assert_eq!(t.ids, vec![103]);
}

#[test]
fn reaper_preserves_order_of_survivors() {
    let mut t = ChildTable::new();
    t.track(1);
    t.track(2);
    t.track(3);
    t.reap(&vec![true, false, false]);
    assert_eq!(t.ids, vec![2, 3]);
}

#[test]
fn listing_sorts_by_title_with_untitled_first() {
    let mut m = KeyMap::new();
    m.push(
        "k2".to_owned(),
        ActionDesc { title: "b".to_owned(), action: Action::Die },
    );
    m.push(
        "k1".to_owned(),
        ActionDesc { title: "".to_owned(), action: Action::Die },
    );
    m.push(
        "k3".to_owned(),
        ActionDesc { title: "a".to_owned(), action: Action::Die },
    );
    assert_eq!(overlay_text(&m), "Next keys:\n\nk1\nk3 - a\nk2 - b");
}

#[test]
fn listing_of_an_empty_node_is_just_the_header() {
    let m = KeyMap::new();
    assert_eq!(overlay_text(&m), "Next keys:");
}

#[test]
fn listing_breaks_title_ties_by_entry_order() {
    let mut m = KeyMap::new();
    m.push(
        "k2".to_owned(),
        ActionDesc { title: "same".to_owned(), action: Action::Die },
    );
    m.push(
        "k1".to_owned(),
        ActionDesc { title: "same".to_owned(), action: Action::Die },
    );
    assert_eq!(overlay_text(&m), "Next keys:\n\nk2 - same\nk1 - same");
}

#[test]
fn text_helpers_behave_like_std() {
    let toks = split_str("a,b,,c", ',');
    let views: Vec<&str> = toks.iter().map(|s| s.as_str()).collect();
    assert_eq!(views, vec!["a", "b", "", "c"]);
    assert_eq!(split_str("", ',').len(), 1);
    assert_eq!(trim_str("  hi there\n"), "hi there");
    assert_eq!(trim_str(" \t\n "), "");
    assert_eq!(parse_decimal("42"), Some(42));
    assert_eq!(parse_decimal("18446744073709551615"), Some(u64::MAX));
    assert_eq!(parse_decimal("18446744073709551616"), None);
    assert_eq!(parse_decimal(""), None);
    assert_eq!(parse_decimal("4x2"), None);
    assert_eq!(u32_to_decimal(0), "0");
    assert_eq!(u32_to_decimal(4294967295), "4294967295");
}

#[test]
fn example_config_shape() {
    let cfg = example();
    assert_eq!(cfg.map.entries.len(), 3);
    let root = cfg.map.lookup("C-F6").unwrap();
    assert_eq!(root.title, "Main actions");
    let sub = root.action.action_map().unwrap();
    assert_eq!(sub.entries.len(), 3);
    assert!(cfg.map.lookup("F11").is_some());
    assert!(cfg.map.lookup("C-c").is_some());
    assert!(cfg.map.lookup("zzz").is_none());
}

#[test]
fn error_messages_match_their_kinds() {
    assert_eq!(Error::UnknownKey.message(), "Unknown key");
    assert_eq!(Error::NoScreenFound.message(), "No screen found");
    assert_eq!(Error::InvalidPosition.message(), "Invalid position specified");
    assert_eq!(
        Error::NoConfig.message(),
        "Configuration not provided, run with --help"
    );
    assert_eq!(Error::NumberParse.message(), "ParseInt error");
}
