use keytree::action::{Action, ActionDesc, KeyMap, Op};
use keytree::config::{example, Config};
use keytree::engine::{root_key_event, Effect, Engine, Event};
use keytree::keysym::default_table;
use keytree::masks::Masks;

fn zero_masks() -> Masks {
    Masks { meta: 0, alt: 0, superr: 0, hyper: 0, num_lock: 0, scroll_lock: 0 }
}

fn desc(title: &str, action: Action) -> ActionDesc {
    ActionDesc { title: title.to_owned(), action }
}

const F6: u32 = 0xffc3;
const KEY_R: u32 = 0x72;
const KEY_Q: u32 = 0x71;
const KEY_M: u32 = 0x6d;
const KEY_A: u32 = 0x61;
const KEY_B: u32 = 0x62;
const KEY_L: u32 = 0x6c;
const CONTROL: u32 = 4;

const MENU_TEXT: &str = "Next keys:\n\ne - Open file manager\nr - Reload\nx - Sub actions";

#[test]
fn chord_descends_with_sorted_listing() {
    let table = default_table();
    let masks = zero_masks();
    let mut eng = Engine::new(example(), false);
    let effects = eng.on_key_press(&table, &masks, F6, CONTROL);
    assert_eq!(effects.len(), 1);
    match &effects[0] {
        Effect::ShowOverlay { text } => assert_eq!(text, MENU_TEXT),
        _ => panic!("expected ShowOverlay"),
    }
    assert_eq!(eng.path, vec!["C-F6".to_owned()]);
}

#[test]
fn reload_entry_requests_reload_and_reverts() {
    let table = default_table();
    let masks = zero_masks();
    let mut eng = Engine::new(example(), false);
    eng.on_key_press(&table, &masks, F6, CONTROL);
    eng.overlay_created(1, 99, 0);
    let effects = eng.on_key_press(&table, &masks, KEY_R, 0);
    assert_eq!(effects.len(), 2);
    assert!(matches!(effects[0], Effect::RequestReload));
    assert!(matches!(effects[1], Effect::DestroyOverlay { window: 1 }));
    assert_eq!(eng.path.len(), 0);
    assert!(eng.running);
    eng.finish_reload_ok(example());
    assert_eq!(eng.path.len(), 0);
    // the overlay closes out through its destroy notification
    let effects = eng.handle_event(&table, &masks, &Event::DestroyNotify { window: 1 }, 0);
    assert_eq!(effects.len(), 1);
    assert!(matches!(effects[0], Effect::RestoreFocus { window: 99, revert_to: 0 }));
    assert!(eng.overlay.is_none());
}

#[test]
fn unmapped_key_reverts_to_root() {
    let table = default_table();
    let masks = zero_masks();
    let mut eng = Engine::new(example(), false);
    eng.on_key_press(&table, &masks, F6, CONTROL);
    eng.overlay_created(2, 5, 1);
    let effects = eng.on_key_press(&table, &masks, KEY_Q, 0);
    assert_eq!(effects.len(), 1);
    assert!(matches!(effects[0], Effect::DestroyOverlay { window: 2 }));
    assert_eq!(eng.path.len(), 0);
    assert!(eng.running);
}

#[test]
fn bare_modifier_press_is_ignored() {
    let table = default_table();
    let masks = zero_masks();
    let mut eng = Engine::new(example(), false);
    eng.on_key_press(&table, &masks, F6, CONTROL);
    let effects = eng.on_key_press(&table, &masks, 0xffe1, 0); // Shift_L
    assert!(effects.is_empty());
    assert_eq!(eng.path, vec!["C-F6".to_owned()]);
}

fn alias_config() -> Config {
    let mut sub = KeyMap::new();
    sub.push("z".to_owned(), desc("Zed", Action::Die));
    let mut root = KeyMap::new();
    root.push("a,b".to_owned(), desc("Pair", Action::Submap(sub)));
    Config { map: root }
}

#[test]
fn alias_alternatives_reach_the_same_node() {
    let table = default_table();
    let masks = zero_masks();

    let mut eng1 = Engine::new(alias_config(), false);
    let eff1 = eng1.on_key_press(&table, &masks, KEY_A, 0);
    let mut eng2 = Engine::new(alias_config(), false);
    let eff2 = eng2.on_key_press(&table, &masks, KEY_B, 0);

    let t1 = match &eff1[0] {
        Effect::ShowOverlay { text } => text.clone(),
        _ => panic!("expected ShowOverlay"),
    };
    let t2 = match &eff2[0] {
        Effect::ShowOverlay { text } => text.clone(),
        _ => panic!("expected ShowOverlay"),
    };
    assert_eq!(t1, t2);
    assert_eq!(t1, "Next keys:\n\nz - Zed");
    assert_eq!(eng1.path, eng2.path);
    assert_eq!(eng1.path, vec!["a,b".to_owned()]);
}

#[test]
fn failed_reload_keeps_the_tree_and_dismisses_after_a_second() {
    let table = default_table();
    let masks = zero_masks();
    let mut eng = Engine::new(example(), false);

    let effects = eng.finish_reload_err("bad config", 1000);
    assert_eq!(effects.len(), 1);
    match &effects[0] {
        Effect::ShowErrorOverlay { text } => assert_eq!(text, "bad config"),
        _ => panic!("expected ShowErrorOverlay"),
    }
    eng.error_overlay_created(7);

    // a second failure while the error overlay lives shows nothing new
    let effects = eng.finish_reload_err("again", 1100);
    assert!(effects.is_empty());

    // not before 1000 ms
    let effects = eng.tick(1999);
    assert!(effects.is_empty());
    // at 1000 ms
    let effects = eng.tick(2000);
    assert_eq!(effects.len(), 1);
    assert!(matches!(effects[0], Effect::DestroyErrorOverlay { window: 7 }));
    assert!(eng.error_start.is_none());
    // and only once
    let effects = eng.tick(2100);
    assert!(effects.is_empty());

    // the active tree is untouched: the root chord still answers as before
    let effects = eng.on_key_press(&table, &masks, F6, CONTROL);
    match &effects[0] {
        Effect::ShowOverlay { text } => assert_eq!(text, MENU_TEXT),
        _ => panic!("expected ShowOverlay"),
    }
}

#[test]
fn die_closes_the_overlay_before_the_run_ends() {
    let table = default_table();
    let masks = zero_masks();
    let mut sub = KeyMap::new();
    sub.push("q".to_owned(), desc("Quit", Action::Die));
    let mut root = KeyMap::new();
    root.push("m".to_owned(), desc("Menu", Action::Submap(sub)));
    let mut eng = Engine::new(Config { map: root }, false);

    eng.on_key_press(&table, &masks, KEY_M, 0);
    eng.overlay_created(5, 10, 1);
    let effects = eng.on_key_press(&table, &masks, KEY_Q, 0);
    assert_eq!(effects.len(), 1);
    assert!(matches!(effects[0], Effect::DestroyOverlay { window: 5 }));
    assert!(!eng.running);
    // the loop keeps going for the overlay's destroy round trip
    assert!(eng.should_continue());
    let effects = eng.handle_event(&table, &masks, &Event::DestroyNotify { window: 5 }, 0);
    assert!(matches!(effects[0], Effect::RestoreFocus { window: 10, revert_to: 1 }));
    assert!(!eng.should_continue());
}

#[test]
fn operation_list_runs_in_order_and_reaps_before_each_spawn() {
    let table = default_table();
    let masks = zero_masks();
    let mut ops: Vec<Op> = Vec::new();
    ops.push(Op::Execute("echo hi".to_owned()));
    ops.push(Op::Execute("echo there".to_owned()));
    let mut root = KeyMap::new();
    root.push("l".to_owned(), desc("", Action::List(ops)));
    let mut eng = Engine::new(Config { map: root }, false);

    let effects = eng.on_key_press(&table, &masks, KEY_L, 0);
    assert_eq!(effects.len(), 4);
    assert!(matches!(effects[0], Effect::ReapChildren));
    match &effects[1] {
        Effect::Spawn { script } => assert_eq!(script, "echo hi"),
        _ => panic!("expected Spawn"),
    }
    assert!(matches!(effects[2], Effect::ReapChildren));
    match &effects[3] {
        Effect::Spawn { script } => assert_eq!(script, "echo there"),
        _ => panic!("expected Spawn"),
    }
}

#[test]
fn reload_ends_an_operation_list() {
    let table = default_table();
    let masks = zero_masks();
    let mut ops: Vec<Op> = Vec::new();
    ops.push(Op::Execute("first".to_owned()));
    ops.push(Op::Reload);
    ops.push(Op::Execute("never".to_owned()));
    let mut root = KeyMap::new();
    root.push("l".to_owned(), desc("", Action::List(ops)));
    let mut eng = Engine::new(Config { map: root }, false);

    let effects = eng.on_key_press(&table, &masks, KEY_L, 0);
    assert_eq!(effects.len(), 3);
    assert!(matches!(effects[0], Effect::ReapChildren));
    assert!(matches!(effects[1], Effect::Spawn { .. }));
    assert!(matches!(effects[2], Effect::RequestReload));
}

#[test]
fn external_root_mode_ends_after_a_chord() {
    let table = default_table();
    let masks = zero_masks();
    let mut eng = Engine::new(example(), true);
    let effects = eng.on_key_press(&table, &masks, KEY_Q, 0);
    assert!(effects.is_empty());
    assert!(!eng.running);
}

#[test]
fn focus_loss_timeout_ends_an_external_run() {
    let table = default_table();
    let masks = zero_masks();
    let mut eng = Engine::new(alias_config(), true);
    eng.on_key_press(&table, &masks, KEY_A, 0);
    eng.overlay_created(3, 1, 0);

    eng.handle_event(&table, &masks, &Event::FocusOut { window: 3 }, 500);
    // exactly 30 ms is not yet a timeout
    let effects = eng.tick(530);
    assert!(effects.is_empty());
    assert!(eng.running);
    let effects = eng.tick(531);
    assert_eq!(effects.len(), 1);
    assert!(matches!(effects[0], Effect::DestroyOverlay { window: 3 }));
    assert!(!eng.running);
}

#[test]
fn focus_regained_cancels_the_timeout() {
    let table = default_table();
    let masks = zero_masks();
    let mut eng = Engine::new(alias_config(), true);
    eng.on_key_press(&table, &masks, KEY_A, 0);
    eng.overlay_created(3, 1, 0);
    eng.handle_event(&table, &masks, &Event::FocusOut { window: 3 }, 500);
    eng.handle_event(&table, &masks, &Event::FocusIn { window: 3 }, 510);
    let effects = eng.tick(900);
    assert!(effects.is_empty());
    assert!(eng.running);
}

#[test]
fn window_events_ask_for_redraws() {
    let table = default_table();
    let masks = zero_masks();
    let mut eng = Engine::new(example(), false);
    eng.on_key_press(&table, &masks, F6, CONTROL);
    eng.overlay_created(4, 1, 0);
    let effects = eng.handle_event(&table, &masks, &Event::ConfigureNotify { window: 4 }, 0);
    assert_eq!(effects.len(), 1);
    assert!(matches!(effects[0], Effect::Redraw { window: 4 }));
    let effects = eng.handle_event(&table, &masks, &Event::MapNotify { window: 4 }, 0);
    assert_eq!(effects.len(), 2);
    assert!(matches!(effects[0], Effect::Redraw { window: 4 }));
    assert!(matches!(effects[1], Effect::FocusOverlay { window: 4 }));
    let effects = eng.handle_event(&table, &masks, &Event::ConfigureNotify { window: 9 }, 0);
    assert!(effects.is_empty());
}

#[test]
fn root_key_search_builds_the_synthetic_press() {
    let table = default_table();
    let masks = zero_masks();
    let cfg = example();
    match root_key_event(&table, &masks, &cfg, "C-F6").unwrap() {
        Some(Event::KeyPress { key, state }) => {
            assert_eq!(key, F6);
            assert_eq!(state, CONTROL);
        }
        _ => panic!("expected a synthetic key press"),
    }
    match root_key_event(&table, &masks, &cfg, "F11").unwrap() {
        Some(Event::KeyPress { key, state }) => {
            assert_eq!(key, 0xffc8);
            assert_eq!(state, 0);
        }
        _ => panic!("expected a synthetic key press"),
    }
    assert!(root_key_event(&table, &masks, &cfg, "zzz").unwrap().is_none());
}
