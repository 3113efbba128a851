//! The configuration: the root of the action tree, the canonical example
//! document's tree, and the choice of the configuration location.  Reading
//! and deserializing the on-disk document is the shell's business; this
//! module owns what the document means.

use vstd::prelude::*;
use crate::action::{Action, ActionDesc, KeyMap, MapEntry, Op};
use crate::combination::{lemma_bare_key_parses, lemma_control_key_parses, spec_parse};
use crate::error::Error;
use crate::keysym::{pins_default_names, SymbolTable};
use crate::strutil::{lemma_split_no_sep, spec_split};

verus! {

/// The root of the action tree.
pub struct Config {
    pub map: KeyMap,
}

/// The exact shape of the canonical example configuration.
pub open spec fn spec_is_example(c: Config) -> bool {
    let root = c.map.entries@;
    &&& root.len() == 3
    &&& root[0].key@ == "C-F6"@
    &&& root[0].desc.title@ == "Main actions"@
    &&& root[0].desc.action matches Action::Submap(m1) && {
        let sub = m1.entries@;
        &&& sub.len() == 3
        &&& sub[0].key@ == "r"@
        &&& sub[0].desc.title@ == "Reload"@
        &&& sub[0].desc.action is Reload
        &&& sub[1].key@ == "x"@
        &&& sub[1].desc.title@ == "Sub actions"@
        &&& sub[1].desc.action matches Action::Submap(m2) && {
            let sub2 = m2.entries@;
            &&& sub2.len() == 3
            &&& sub2[0].key@ == "a"@
            &&& sub2[0].desc.title@ == "Reload"@
            &&& sub2[0].desc.action is Reload
            &&& sub2[1].key@ == "b"@
            &&& sub2[1].desc.title@ == "Open alacritty"@
            &&& sub2[1].desc.action matches Action::List(l) && {
                &&& l@.len() == 2
                &&& l@[0] matches Op::Execute(s) && s@ == "alacritty"@
                &&& l@[1] is Reload
            }
            &&& sub2[2].key@ == "c"@
            &&& sub2[2].desc.title@ == "Open file manager"@
            &&& sub2[2].desc.action matches Action::Execute(s)
                && s@ == "exo-open --launch FileManager"@
        }
        &&& sub[2].key@ == "e"@
        &&& sub[2].desc.title@ == "Open file manager"@
        &&& sub[2].desc.action matches Action::Execute(s)
            && s@ == "exo-open --launch FileManager"@
    }
    &&& root[1].key@ == "F11"@
    &&& root[1].desc.title@ == ""@
    &&& root[1].desc.action matches Action::Execute(s)
        && s@ == "exo-open --launch FileManager"@
    &&& root[2].key@ == "C-c"@
    &&& root[2].desc.title@ == ""@
    &&& root[2].desc.action is Die
}

/// Builds the canonical example configuration shown by the
/// show-example-config mode: a `C-F6` menu with a reload entry, a nested
/// menu and a direct command, a bare `F11` command, and a `C-c` exit.
pub fn example() -> (r: Config)
    ensures
        spec_is_example(r),
{
    let mut sub2 = KeyMap::new();
    sub2.push(
        "a".to_owned(),
        ActionDesc { title: "Reload".to_owned(), action: Action::Reload },
    );
    let mut ops: Vec<Op> = Vec::new();
    ops.push(Op::Execute("alacritty".to_owned()));
    ops.push(Op::Reload);
    sub2.push(
        "b".to_owned(),
        ActionDesc { title: "Open alacritty".to_owned(), action: Action::List(ops) },
    );
    sub2.push(
        "c".to_owned(),
        ActionDesc {
            title: "Open file manager".to_owned(),
            action: Action::Execute("exo-open --launch FileManager".to_owned()),
        },
    );

    let mut sub = KeyMap::new();
    sub.push(
        "r".to_owned(),
        ActionDesc { title: "Reload".to_owned(), action: Action::Reload },
    );
    sub.push(
        "x".to_owned(),
        ActionDesc { title: "Sub actions".to_owned(), action: Action::Submap(sub2) },
    );
    sub.push(
        "e".to_owned(),
        ActionDesc {
            title: "Open file manager".to_owned(),
            action: Action::Execute("exo-open --launch FileManager".to_owned()),
        },
    );

    let mut root = KeyMap::new();
    root.push(
        "C-F6".to_owned(),
        ActionDesc { title: "Main actions".to_owned(), action: Action::Submap(sub) },
    );
    root.push(
        "F11".to_owned(),
        ActionDesc {
            title: "".to_owned(),
            action: Action::Execute("exo-open --launch FileManager".to_owned()),
        },
    );
    root.push(
        "C-c".to_owned(),
        ActionDesc { title: "".to_owned(), action: Action::Die },
    );

    Config { map: root }
}

/// Whether every key of a tree parses: at this node and in every nested
/// map, each comma-separated alternative of each key is a combination the
/// table resolves.
pub open spec fn spec_keys_parse(t: SymbolTable, entries: Seq<MapEntry>) -> bool
    decreases entries,
{
    forall|i: int| 0 <= i < entries.len() ==> {
        let e = #[trigger] entries[i];
        &&& (forall|j: int| 0 <= j < spec_split(e.key@, ',').len()
            ==> spec_parse(t, #[trigger] spec_split(e.key@, ',')[j]) is Some)
        &&& match e.desc.action {
            Action::Submap(m) => spec_keys_parse(t, m.entries@),
            _ => true,
        }
    }
}

/// One comma-free, resolvable key satisfies the per-entry obligation.
proof fn lemma_single_token_key(t: SymbolTable, key: Seq<char>)
    requires
        forall|i: int| 0 <= i < key.len() ==> key[i] != ',',
        spec_parse(t, key) is Some,
    ensures
        forall|j: int| 0 <= j < spec_split(key, ',').len()
            ==> spec_parse(t, #[trigger] spec_split(key, ',')[j]) is Some,
{
    lemma_split_no_sep(key, ',');
    assert(spec_split(key, ',') =~~= seq![key]);
}

/// Every key of the canonical example configuration parses under a table
/// that pins the standard names: dispatch and grabbing over the example
/// can never fail for want of a key name.
pub proof fn lemma_example_keys_parse(t: SymbolTable, c: Config)
    requires
        spec_is_example(c),
        pins_default_names(t),
    ensures
        spec_keys_parse(t, c.map.entries@),
{
    reveal_strlit("C-F6");
    reveal_strlit("C-c");
    reveal_strlit("C-");
    reveal_strlit("F11");
    reveal_strlit("F6");
    reveal_strlit("r");
    reveal_strlit("x");
    reveal_strlit("e");
    reveal_strlit("a");
    reveal_strlit("b");
    reveal_strlit("c");

    // the bare keys
    lemma_bare_key_parses(t, "r"@);
    lemma_bare_key_parses(t, "x"@);
    lemma_bare_key_parses(t, "e"@);
    lemma_bare_key_parses(t, "a"@);
    lemma_bare_key_parses(t, "b"@);
    lemma_bare_key_parses(t, "c"@);
    lemma_bare_key_parses(t, "F11"@);
    lemma_single_token_key(t, "r"@);
    lemma_single_token_key(t, "x"@);
    lemma_single_token_key(t, "e"@);
    lemma_single_token_key(t, "a"@);
    lemma_single_token_key(t, "b"@);
    lemma_single_token_key(t, "c"@);
    lemma_single_token_key(t, "F11"@);

    // the control-prefixed keys
    lemma_control_key_parses(t, "F6"@);
    assert("C-F6"@ =~= "C-"@.add("F6"@));
    lemma_single_token_key(t, "C-F6"@);
    lemma_control_key_parses(t, "c"@);
    assert("C-c"@ =~= "C-"@.add("c"@));
    lemma_single_token_key(t, "C-c"@);

    let root = c.map.entries@;
    let m1 = match root[0].desc.action {
        Action::Submap(m1) => m1,
        _ => vstd::pervasive::arbitrary(),
    };
    let m2 = match m1.entries@[1].desc.action {
        Action::Submap(m2) => m2,
        _ => vstd::pervasive::arbitrary(),
    };

    assert(spec_keys_parse(t, m2.entries@)) by {
        assert forall|i: int| 0 <= i < m2.entries@.len() implies {
            let e = #[trigger] m2.entries@[i];
            &&& (forall|j: int| 0 <= j < spec_split(e.key@, ',').len()
                ==> spec_parse(t, #[trigger] spec_split(e.key@, ',')[j]) is Some)
            &&& match e.desc.action {
                Action::Submap(m) => spec_keys_parse(t, m.entries@),
                _ => true,
            }
        } by {
            if i == 0 {
                assert(m2.entries@[0].key@ == "a"@);
            } else if i == 1 {
                assert(m2.entries@[1].key@ == "b"@);
            } else {
                assert(m2.entries@[2].key@ == "c"@);
            }
        }
    }

    assert(spec_keys_parse(t, m1.entries@)) by {
        assert forall|i: int| 0 <= i < m1.entries@.len() implies {
            let e = #[trigger] m1.entries@[i];
            &&& (forall|j: int| 0 <= j < spec_split(e.key@, ',').len()
                ==> spec_parse(t, #[trigger] spec_split(e.key@, ',')[j]) is Some)
            &&& match e.desc.action {
                Action::Submap(m) => spec_keys_parse(t, m.entries@),
                _ => true,
            }
        } by {
            if i == 0 {
                assert(m1.entries@[0].key@ == "r"@);
            } else if i == 1 {
                assert(m1.entries@[1].key@ == "x"@);
                assert(spec_keys_parse(t, m2.entries@));
            } else {
                assert(m1.entries@[2].key@ == "e"@);
            }
        }
    }

    assert forall|i: int| 0 <= i < root.len() implies {
        let e = #[trigger] root[i];
        &&& (forall|j: int| 0 <= j < spec_split(e.key@, ',').len()
            ==> spec_parse(t, #[trigger] spec_split(e.key@, ',')[j]) is Some)
        &&& match e.desc.action {
            Action::Submap(m) => spec_keys_parse(t, m.entries@),
            _ => true,
        }
    } by {
        if i == 0 {
            assert(root[0].key@ == "C-F6"@);
            assert(spec_keys_parse(t, m1.entries@));
        } else if i == 1 {
            assert(root[1].key@ == "F11"@);
        } else {
            assert(root[2].key@ == "C-c"@);
        }
    }
}

/// Where the configuration lives: an explicit command-line path wins,
/// else the dedicated environment variable, else the platform
/// configuration directory's `keytree/config.yaml`; with none of the
/// three there is no configuration.
pub open spec fn spec_config_path(
    cli: Option<String>,
    env: Option<String>,
    config_dir: Option<String>,
) -> Option<Seq<char>> {
    match cli {
        Some(p) => Some(p@),
        None => match env {
            Some(p) => Some(p@),
            None => match config_dir {
                Some(d) => Some(d@.add("/keytree/config.yaml"@)),
                None => None,
            },
        },
    }
}

/// Resolves the configuration location from the command-line option, the
/// environment override, and the platform configuration directory.  Fails
/// with `NoConfig` exactly when all three are absent.
pub fn choose_config_path(
    cli: Option<String>,
    env: Option<String>,
    config_dir: Option<String>,
) -> (r: Result<String, Error>)
    ensures
        match r {
            Ok(p) => spec_config_path(cli, env, config_dir) == Some(p@),
            Err(e) => e == Error::NoConfig && spec_config_path(cli, env, config_dir) is None,
        },
{
    match cli {
        Some(p) => Ok(p),
        None => match env {
            Some(p) => Ok(p),
            None => match config_dir {
                Some(d) => {
                    let mut s = d;
                    s.append("/keytree/config.yaml");
                    Ok(s)
                },
                None => Err(Error::NoConfig),
            },
        },
    }
}

} // verus!
