//! The symbol table: a bidirectional mapping between platform key-symbol
//! codes and their canonical names, built once from a static definition
//! table of `name -> code` pairs.
//!
//! Duplicate definitions are resolved as the table build of the daemon
//! resolves them: a code keeps the first name defined for it, a name is
//! overwritten by its last definition.

use vstd::prelude::*;
use vstd::pervasive::unreached;
use crate::strutil::{spec_dec_digits, u32_to_decimal, string_eq, str_free_of};

verus! {

/// A platform key-symbol identifier.
pub type KeySym = u32;

/// One `name -> code` pair of the symbol definition table.
pub struct SymEntry {
    pub name: String,
    pub code: u32,
}

/// A usable symbol name: non-empty and free of `-`, which the combination
/// grammar reserves as its separator.
pub open spec fn valid_sym_name(n: Seq<char>) -> bool {
    n.len() > 0 && forall|i: int| 0 <= i < n.len() ==> n[i] != '-'
}

/// The name of the first definition whose code matches, if any.
pub open spec fn spec_find_by_code(s: Seq<SymEntry>, code: u32) -> Option<Seq<char>>
    decreases s.len(),
{
    if s.len() == 0 {
        None
    } else if s[0].code == code {
        Some(s[0].name@)
    } else {
        spec_find_by_code(s.skip(1), code)
    }
}

/// The code of the first definition whose name matches, if any.
pub open spec fn spec_find_by_name(s: Seq<SymEntry>, name: Seq<char>) -> Option<u32>
    decreases s.len(),
{
    if s.len() == 0 {
        None
    } else if s[0].name@ == name {
        Some(s[0].code)
    } else {
        spec_find_by_name(s.skip(1), name)
    }
}

/// Appending a definition changes a code lookup only where the lookup
/// found nothing before.
pub proof fn lemma_find_by_code_push(s: Seq<SymEntry>, e: SymEntry, code: u32)
    ensures
        spec_find_by_code(s.push(e), code) == match spec_find_by_code(s, code) {
            Some(n) => Some(n),
            None => if e.code == code { Some(e.name@) } else { None::<Seq<char>> },
        },
    decreases s.len(),
{
    if s.len() == 0 {
        reveal_with_fuel(spec_find_by_code, 3);
        assert(s.push(e)[0] == e);
        assert(s.push(e).skip(1) =~= Seq::<SymEntry>::empty());
    } else {
        assert(s.push(e)[0] == s[0]);
        assert(s.push(e).skip(1) =~= s.skip(1).push(e));
        lemma_find_by_code_push(s.skip(1), e, code);
    }
}

/// A code lookup finds nothing exactly when no definition carries the code.
pub proof fn lemma_find_by_code_none(s: Seq<SymEntry>, code: u32)
    ensures
        (spec_find_by_code(s, code) is None)
            <==> (forall|j: int| 0 <= j < s.len() ==> s[j].code != code),
    decreases s.len(),
{
    if s.len() > 0 {
        lemma_find_by_code_none(s.skip(1), code);
        if s[0].code != code {
            if spec_find_by_code(s.skip(1), code) is None {
                assert forall|j: int| 0 <= j < s.len() implies s[j].code != code by {
                    if j > 0 {
                        assert(s.skip(1)[j - 1] == s[j]);
                    }
                }
            } else {
                let j = choose|j: int|
                    0 <= j < s.skip(1).len() && #[trigger] s.skip(1)[j].code == code;
                assert(s[j + 1].code == code);
            }
        }
    }
}

/// A name lookup finds nothing exactly when no definition carries the name.
pub proof fn lemma_find_by_name_none(s: Seq<SymEntry>, name: Seq<char>)
    ensures
        (spec_find_by_name(s, name) is None)
            <==> (forall|j: int| 0 <= j < s.len() ==> s[j].name@ != name),
    decreases s.len(),
{
    if s.len() > 0 {
        lemma_find_by_name_none(s.skip(1), name);
        if s[0].name@ != name {
            if spec_find_by_name(s.skip(1), name) is None {
                assert forall|j: int| 0 <= j < s.len() implies s[j].name@ != name by {
                    if j > 0 {
                        assert(s.skip(1)[j - 1] == s[j]);
                    }
                }
            } else {
                let j = choose|j: int|
                    0 <= j < s.skip(1).len() && #[trigger] s.skip(1)[j].name@ == name;
                assert(s[j + 1].name@ == name);
            }
        }
    }
}

/// Appending a definition changes a name lookup only where the lookup
/// found nothing before.
pub proof fn lemma_find_by_name_push(s: Seq<SymEntry>, e: SymEntry, name: Seq<char>)
    ensures
        spec_find_by_name(s.push(e), name) == match spec_find_by_name(s, name) {
            Some(c) => Some(c),
            None => if e.name@ == name { Some(e.code) } else { None::<u32> },
        },
    decreases s.len(),
{
    if s.len() == 0 {
        reveal_with_fuel(spec_find_by_name, 3);
        assert(s.push(e)[0] == e);
        assert(s.push(e).skip(1) =~= Seq::<SymEntry>::empty());
    } else {
        assert(s.push(e)[0] == s[0]);
        assert(s.push(e).skip(1) =~= s.skip(1).push(e));
        lemma_find_by_name_push(s.skip(1), e, name);
    }
}

/// A first-match lookup passes over a matchless prefix.
pub proof fn lemma_find_by_code_skip(s: Seq<SymEntry>, i: int, code: u32)
    requires
        0 <= i <= s.len(),
        forall|j: int| 0 <= j < i ==> s[j].code != code,
    ensures
        spec_find_by_code(s, code) == spec_find_by_code(s.skip(i), code),
    decreases i,
{
    if i > 0 {
        assert(s.skip(1).skip(i - 1) =~= s.skip(i));
        lemma_find_by_code_skip(s.skip(1), i - 1, code);
    } else {
        assert(s.skip(0) =~= s);
    }
}

/// A first-match lookup passes over a matchless prefix.
pub proof fn lemma_find_by_name_skip(s: Seq<SymEntry>, i: int, name: Seq<char>)
    requires
        0 <= i <= s.len(),
        forall|j: int| 0 <= j < i ==> s[j].name@ != name,
    ensures
        spec_find_by_name(s, name) == spec_find_by_name(s.skip(i), name),
    decreases i,
{
    if i > 0 {
        assert(s.skip(1).skip(i - 1) =~= s.skip(i));
        lemma_find_by_name_skip(s.skip(1), i - 1, name);
    } else {
        assert(s.skip(0) =~= s);
    }
}

/// A successful code lookup returns the name of one of the definitions
/// carrying that code.
pub proof fn lemma_find_by_code_is_entry(s: Seq<SymEntry>, code: u32)
    requires
        spec_find_by_code(s, code) is Some,
    ensures
        exists|i: int| 0 <= i < s.len() && (#[trigger] s[i]).code == code
            && spec_find_by_code(s, code) == Some(s[i].name@),
    decreases s.len(),
{
    if s.len() > 0 && s[0].code != code {
        lemma_find_by_code_is_entry(s.skip(1), code);
        let i = choose|i: int| 0 <= i < s.skip(1).len() && (#[trigger] s.skip(1)[i]).code
            == code && spec_find_by_code(s.skip(1), code) == Some(s.skip(1)[i].name@);
        assert(s[i + 1] == s.skip(1)[i]);
    }
}

/// The fallback display name `<N>` is a usable symbol name.
pub proof fn lemma_unknown_name_valid(k: u32)
    ensures
        valid_sym_name(spec_unknown_name(k)),
{
    crate::strutil::lemma_dec_digits_are_digits(k as nat);
    let n = spec_unknown_name(k);
    assert forall|i: int| 0 <= i < n.len() implies n[i] != '-' by {
        if 1 <= i < n.len() - 1 {
            assert(n[i] == spec_dec_digits(k as nat)[i - 1]);
            assert(crate::strutil::is_digit(spec_dec_digits(k as nat)[i - 1]));
        }
    }
}

/// In a well-formed table every canonical name is usable: non-empty and
/// free of the grammar separator.
pub proof fn lemma_sym_name_valid(t: SymbolTable, k: u32)
    requires
        t.wf(),
    ensures
        valid_sym_name(t.spec_sym_to_name(k)),
{
    match spec_find_by_code(t.by_code@, k) {
        Some(_) => {
            lemma_find_by_code_is_entry(t.by_code@, k);
        },
        None => {
            lemma_unknown_name_valid(k);
        },
    }
}

/// Finds the name recorded for a code.
fn lookup_code(entries: &Vec<SymEntry>, code: u32) -> (r: Option<String>)
    ensures
        match r {
            Some(n) => spec_find_by_code(entries@, code) == Some(n@),
            None => spec_find_by_code(entries@, code) is None,
        },
{
    let mut i: usize = 0;
    while i < entries.len()
        invariant
            i <= entries@.len(),
            forall|j: int| 0 <= j < i ==> entries@[j].code != code,
        decreases entries@.len() - i,
    {
        if entries[i].code == code {
            proof {
                lemma_find_by_code_skip(entries@, i as int, code);
            }
            return Some(entries[i].name.clone());
        }
        i = i + 1;
    }
    proof {
        lemma_find_by_code_skip(entries@, entries@.len() as int, code);
    }
    None
}

/// Finds the code recorded for a name.
fn lookup_name(entries: &Vec<SymEntry>, name: &str) -> (r: Option<u32>)
    ensures
        match r {
            Some(c) => spec_find_by_name(entries@, name@) == Some(c),
            None => spec_find_by_name(entries@, name@) is None,
        },
{
    let mut i: usize = 0;
    while i < entries.len()
        invariant
            i <= entries@.len(),
            forall|j: int| 0 <= j < i ==> entries@[j].name@ != name@,
        decreases entries@.len() - i,
    {
        if string_eq(&entries[i].name, name) {
            proof {
                lemma_find_by_name_skip(entries@, i as int, name@);
            }
            return Some(entries[i].code);
        }
        i = i + 1;
    }
    proof {
        lemma_find_by_name_skip(entries@, entries@.len() as int, name@);
    }
    None
}

/// The bidirectional symbol table.
pub struct SymbolTable {
    pub by_code: Vec<SymEntry>,
    pub by_name: Vec<SymEntry>,
}

/// The display name of a code the table does not know: `<N>` with the code
/// in decimal.
pub open spec fn spec_unknown_name(k: u32) -> Seq<char> {
    seq!['<'].add(spec_dec_digits(k as nat)).push('>')
}

impl SymbolTable {
    /// No two recorded codes coincide.
    pub open spec fn codes_unique(self) -> bool {
        forall|i: int, j: int|
            0 <= i < j < self.by_code@.len()
                ==> self.by_code@[i].code != self.by_code@[j].code
    }

    /// No two recorded names coincide.
    pub open spec fn names_unique(self) -> bool {
        forall|i: int, j: int|
            0 <= i < j < self.by_name@.len()
                ==> self.by_name@[i].name@ != self.by_name@[j].name@
    }

    /// Every recorded name is usable.
    pub open spec fn names_ok(self) -> bool {
        (forall|i: int| 0 <= i < self.by_code@.len()
            ==> valid_sym_name(#[trigger] self.by_code@[i].name@))
        && (forall|i: int| 0 <= i < self.by_name@.len()
            ==> valid_sym_name(#[trigger] self.by_name@[i].name@))
    }

    /// Well-formedness of the table.
    pub open spec fn wf(self) -> bool {
        self.codes_unique() && self.names_unique() && self.names_ok()
    }

    /// The canonical name of a code; `<N>` where the table has none.
    pub open spec fn spec_sym_to_name(self, k: u32) -> Seq<char> {
        match spec_find_by_code(self.by_code@, k) {
            Some(n) => n,
            None => spec_unknown_name(k),
        }
    }

    /// The code recorded for a name, if any.
    pub open spec fn spec_name_to_sym(self, n: Seq<char>) -> Option<u32> {
        spec_find_by_name(self.by_name@, n)
    }

    /// The names that the modifier classification of key symbols relies on.
    pub open spec fn has_modifier_names(self) -> bool {
        self.spec_name_to_sym("Shift_L"@) is Some
        && self.spec_name_to_sym("Hyper_R"@) is Some
        && self.spec_name_to_sym("Mode_switch"@) is Some
        && self.spec_name_to_sym("Num_Lock"@) is Some
    }

    /// Runtime check for [`SymbolTable::has_modifier_names`], for callers
    /// outside the verified core.
    pub fn check_modifier_names(&self) -> (r: bool)
        ensures
            r == self.has_modifier_names(),
    {
        let a = name_to_sym(self, "Shift_L").is_some();
        let b = name_to_sym(self, "Hyper_R").is_some();
        let c = name_to_sym(self, "Mode_switch").is_some();
        let d = name_to_sym(self, "Num_Lock").is_some();
        a && b && c && d
    }

    /// Every recorded code's name resolves back to that code.  On such a
    /// table, formatting a named key and parsing the text again returns
    /// the same key.
    pub open spec fn coherent(self) -> bool {
        forall|i: int| 0 <= i < self.by_code@.len()
            ==> self.spec_name_to_sym((#[trigger] self.by_code@[i]).name@)
                == Some(self.by_code@[i].code)
    }

    /// Runtime check for [`SymbolTable::coherent`].
    pub fn check_coherent(&self) -> (r: bool)
        ensures
            r == self.coherent(),
    {
        let n = self.by_code.len();
        let mut i: usize = 0;
        while i < n
            invariant
                i <= n == self.by_code@.len(),
                forall|j: int| 0 <= j < i
                    ==> self.spec_name_to_sym((#[trigger] self.by_code@[j]).name@)
                        == Some(self.by_code@[j].code),
            decreases n - i,
        {
            let ok = match name_to_sym(self, self.by_code[i].name.as_str()) {
                Some(c) => c == self.by_code[i].code,
                None => false,
            };
            if !ok {
                return false;
            }
            i = i + 1;
        }
        true
    }

    /// Builds the table from a definition list, resolving duplicates as
    /// documented: first definition wins by code, last wins by name.
    /// Refuses a list holding an unusable name.
    pub fn from_defs(defs: &Vec<SymEntry>) -> (r: Option<SymbolTable>)
        ensures
            match r {
                Some(t) => {
                    &&& forall|i: int| 0 <= i < defs@.len()
                        ==> valid_sym_name(#[trigger] defs@[i].name@)
                    &&& t.wf()
                    &&& forall|k: u32| spec_find_by_code(t.by_code@, k)
                        == spec_find_by_code(defs@, k)
                    &&& forall|n: Seq<char>| spec_find_by_name(t.by_name@, n)
                        == spec_find_by_name(defs@.reverse(), n)
                },
                None => !(forall|i: int| 0 <= i < defs@.len()
                    ==> valid_sym_name(#[trigger] defs@[i].name@)),
            },
    {
        // Validate the names first.
        let mut i: usize = 0;
        while i < defs.len()
            invariant
                i <= defs@.len(),
                forall|j: int| 0 <= j < i ==> valid_sym_name(#[trigger] defs@[j].name@),
            decreases defs@.len() - i,
        {
            let nonempty = defs[i].name.as_str().unicode_len() > 0;
            let dash_free = str_free_of(defs[i].name.as_str(), '-');
            if !(nonempty && dash_free) {
                return None;
            }
            i = i + 1;
        }

        // Code table: first definition of a code wins.
        let mut by_code: Vec<SymEntry> = Vec::new();
        let mut i: usize = 0;
        proof {
            assert(defs@.take(0) =~= Seq::<SymEntry>::empty());
        }
        while i < defs.len()
            invariant
                i <= defs@.len(),
                forall|j: int| 0 <= j < defs@.len()
                    ==> valid_sym_name(#[trigger] defs@[j].name@),
                forall|a: int, b: int| 0 <= a < b < by_code@.len()
                    ==> by_code@[a].code != by_code@[b].code,
                forall|a: int| 0 <= a < by_code@.len()
                    ==> valid_sym_name(#[trigger] by_code@[a].name@),
                forall|k: u32| spec_find_by_code(by_code@, k)
                    == spec_find_by_code(defs@.take(i as int), k),
            decreases defs@.len() - i,
        {
            let ghost prev = by_code@;
            let present = match lookup_code(&by_code, defs[i].code) {
                Some(_) => true,
                None => false,
            };
            if !present {
                proof {
                    lemma_find_by_code_none(by_code@, defs@[i as int].code);
                }
                by_code.push(SymEntry { name: defs[i].name.clone(), code: defs[i].code });
            }
            proof {
                let e = defs@[i as int];
                assert(defs@.take(i + 1) =~= defs@.take(i as int).push(e));
                assert forall|k: u32| spec_find_by_code(by_code@, k)
                    == spec_find_by_code(defs@.take(i + 1), k) by {
                    lemma_find_by_code_push(defs@.take(i as int), e, k);
                    if !present {
                        assert(by_code@ =~= prev.push(by_code@.last()));
                        lemma_find_by_code_push(prev, by_code@.last(), k);
                    }
                }
            }
            i = i + 1;
        }

        // Name table: last definition of a name wins, realised as a
        // first-wins pass over the reversed list.
        let mut by_name: Vec<SymEntry> = Vec::new();
        let mut i: usize = 0;
        proof {
            assert(defs@.reverse().take(0) =~= Seq::<SymEntry>::empty());
        }
        while i < defs.len()
            invariant
                i <= defs@.len(),
                forall|j: int| 0 <= j < defs@.len()
                    ==> valid_sym_name(#[trigger] defs@[j].name@),
                forall|a: int, b: int| 0 <= a < b < by_name@.len()
                    ==> by_name@[a].name@ != by_name@[b].name@,
                forall|a: int| 0 <= a < by_name@.len()
                    ==> valid_sym_name(#[trigger] by_name@[a].name@),
                forall|n: Seq<char>| spec_find_by_name(by_name@, n)
                    == spec_find_by_name(defs@.reverse().take(i as int), n),
            decreases defs@.len() - i,
        {
            let ghost prev = by_name@;
            let idx = defs.len() - 1 - i;
            let present = match lookup_name(&by_name, defs[idx].name.as_str()) {
                Some(_) => true,
                None => false,
            };
            if !present {
                proof {
                    lemma_find_by_name_none(by_name@, defs@[idx as int].name@);
                }
                by_name.push(SymEntry { name: defs[idx].name.clone(), code: defs[idx].code });
            }
            proof {
                let e = defs@.reverse()[i as int];
                assert(e == defs@[idx as int]);
                assert(defs@.reverse().take(i + 1) =~= defs@.reverse().take(i as int).push(e));
                assert forall|n: Seq<char>| spec_find_by_name(by_name@, n)
                    == spec_find_by_name(defs@.reverse().take(i + 1), n) by {
                    lemma_find_by_name_push(defs@.reverse().take(i as int), e, n);
                    if !present {
                        assert(by_name@ =~= prev.push(by_name@.last()));
                        lemma_find_by_name_push(prev, by_name@.last(), n);
                    }
                }
            }
            i = i + 1;
        }

        proof {
            assert(defs@.take(defs@.len() as int) =~= defs@);
            assert(defs@.reverse().take(defs@.len() as int) =~= defs@.reverse());
        }
        Some(SymbolTable { by_code, by_name })
    }
}

/// One definition pair.
fn def(name: &str, code: u32) -> (r: SymEntry)
    ensures
        r.name@ == name@,
        r.code == code,
{
    SymEntry { name: name.to_owned(), code }
}

/// The void symbol.
fn defs_void(v: &mut Vec<SymEntry>) {
    v.push(def("VoidSymbol", 0xffffff));
}

/// TTY, editing, motion, keypad, function and modifier keys.
fn defs_misc(v: &mut Vec<SymEntry>) {
    v.push(def("BackSpace", 0xff08));
    v.push(def("Tab", 0xff09));
    v.push(def("Linefeed", 0xff0a));
    v.push(def("Clear", 0xff0b));
    v.push(def("Return", 0xff0d));
    v.push(def("Pause", 0xff13));
    v.push(def("Scroll_Lock", 0xff14));
    v.push(def("Sys_Req", 0xff15));
    v.push(def("Escape", 0xff1b));
    v.push(def("Delete", 0xffff));
    v.push(def("Multi_key", 0xff20));
    v.push(def("Codeinput", 0xff37));
    v.push(def("SingleCandidate", 0xff3c));
    v.push(def("MultipleCandidate", 0xff3d));
    v.push(def("PreviousCandidate", 0xff3e));
    v.push(def("Kanji", 0xff21));
    v.push(def("Muhenkan", 0xff22));
    v.push(def("Henkan_Mode", 0xff23));
    v.push(def("Henkan", 0xff23));
    v.push(def("Romaji", 0xff24));
    v.push(def("Hiragana", 0xff25));
    v.push(def("Katakana", 0xff26));
    v.push(def("Hiragana_Katakana", 0xff27));
    v.push(def("Zenkaku", 0xff28));
    v.push(def("Hankaku", 0xff29));
    v.push(def("Zenkaku_Hankaku", 0xff2a));
    v.push(def("Touroku", 0xff2b));
    v.push(def("Massyo", 0xff2c));
    v.push(def("Kana_Lock", 0xff2d));
    v.push(def("Kana_Shift", 0xff2e));
    v.push(def("Eisu_Shift", 0xff2f));
    v.push(def("Eisu_toggle", 0xff30));
    v.push(def("Kanji_Bangou", 0xff37));
    v.push(def("Zen_Koho", 0xff3d));
    v.push(def("Mae_Koho", 0xff3e));
    v.push(def("Home", 0xff50));
    v.push(def("Left", 0xff51));
    v.push(def("Up", 0xff52));
    v.push(def("Right", 0xff53));
    v.push(def("Down", 0xff54));
    v.push(def("Prior", 0xff55));
    v.push(def("Page_Up", 0xff55));
    v.push(def("Next", 0xff56));
    v.push(def("Page_Down", 0xff56));
    v.push(def("End", 0xff57));
    v.push(def("Begin", 0xff58));
    v.push(def("Select", 0xff60));
    v.push(def("Print", 0xff61));
    v.push(def("Execute", 0xff62));
    v.push(def("Insert", 0xff63));
    v.push(def("Undo", 0xff65));
    v.push(def("Redo", 0xff66));
    v.push(def("Menu", 0xff67));
    v.push(def("Find", 0xff68));
    v.push(def("Cancel", 0xff69));
    v.push(def("Help", 0xff6a));
    v.push(def("Break", 0xff6b));
    v.push(def("Mode_switch", 0xff7e));
    v.push(def("script_switch", 0xff7e));
    v.push(def("Num_Lock", 0xff7f));
    v.push(def("KP_Space", 0xff80));
    v.push(def("KP_Tab", 0xff89));
    v.push(def("KP_Enter", 0xff8d));
    v.push(def("KP_F1", 0xff91));
    v.push(def("KP_F2", 0xff92));
    v.push(def("KP_F3", 0xff93));
    v.push(def("KP_F4", 0xff94));
    v.push(def("KP_Home", 0xff95));
    v.push(def("KP_Left", 0xff96));
    v.push(def("KP_Up", 0xff97));
    v.push(def("KP_Right", 0xff98));
    v.push(def("KP_Down", 0xff99));
    v.push(def("KP_Prior", 0xff9a));
    v.push(def("KP_Page_Up", 0xff9a));
    v.push(def("KP_Next", 0xff9b));
    v.push(def("KP_Page_Down", 0xff9b));
    v.push(def("KP_End", 0xff9c));
    v.push(def("KP_Begin", 0xff9d));
    v.push(def("KP_Insert", 0xff9e));
    v.push(def("KP_Delete", 0xff9f));
    v.push(def("KP_Equal", 0xffbd));
    v.push(def("KP_Multiply", 0xffaa));
    v.push(def("KP_Add", 0xffab));
    v.push(def("KP_Separator", 0xffac));
    v.push(def("KP_Subtract", 0xffad));
    v.push(def("KP_Decimal", 0xffae));
    v.push(def("KP_Divide", 0xffaf));
    v.push(def("KP_0", 0xffb0));
    v.push(def("KP_1", 0xffb1));
    v.push(def("KP_2", 0xffb2));
    v.push(def("KP_3", 0xffb3));
    v.push(def("KP_4", 0xffb4));
    v.push(def("KP_5", 0xffb5));
    v.push(def("KP_6", 0xffb6));
    v.push(def("KP_7", 0xffb7));
    v.push(def("KP_8", 0xffb8));
    v.push(def("KP_9", 0xffb9));
    v.push(def("F1", 0xffbe));
    v.push(def("F2", 0xffbf));
    v.push(def("F3", 0xffc0));
    v.push(def("F4", 0xffc1));
    v.push(def("F5", 0xffc2));
    v.push(def("F6", 0xffc3));
    v.push(def("F7", 0xffc4));
    v.push(def("F8", 0xffc5));
    v.push(def("F9", 0xffc6));
    v.push(def("F10", 0xffc7));
    v.push(def("F11", 0xffc8));
    v.push(def("L1", 0xffc8));
    v.push(def("F12", 0xffc9));
    v.push(def("L2", 0xffc9));
    v.push(def("F13", 0xffca));
    v.push(def("L3", 0xffca));
    v.push(def("F14", 0xffcb));
    v.push(def("L4", 0xffcb));
    v.push(def("F15", 0xffcc));
    v.push(def("L5", 0xffcc));
    v.push(def("F16", 0xffcd));
    v.push(def("L6", 0xffcd));
    v.push(def("F17", 0xffce));
    v.push(def("L7", 0xffce));
    v.push(def("F18", 0xffcf));
    v.push(def("L8", 0xffcf));
    v.push(def("F19", 0xffd0));
    v.push(def("L9", 0xffd0));
    v.push(def("F20", 0xffd1));
    v.push(def("L10", 0xffd1));
    v.push(def("F21", 0xffd2));
    v.push(def("R1", 0xffd2));
    v.push(def("F22", 0xffd3));
    v.push(def("R2", 0xffd3));
    v.push(def("F23", 0xffd4));
    v.push(def("R3", 0xffd4));
    v.push(def("F24", 0xffd5));
    v.push(def("R4", 0xffd5));
    v.push(def("F25", 0xffd6));
    v.push(def("R5", 0xffd6));
    v.push(def("F26", 0xffd7));
    v.push(def("R6", 0xffd7));
    v.push(def("F27", 0xffd8));
    v.push(def("R7", 0xffd8));
    v.push(def("F28", 0xffd9));
    v.push(def("R8", 0xffd9));
    v.push(def("F29", 0xffda));
    v.push(def("R9", 0xffda));
    v.push(def("F30", 0xffdb));
    v.push(def("R10", 0xffdb));
    v.push(def("F31", 0xffdc));
    v.push(def("R11", 0xffdc));
    v.push(def("F32", 0xffdd));
    v.push(def("R12", 0xffdd));
    v.push(def("F33", 0xffde));
    v.push(def("R13", 0xffde));
    v.push(def("F34", 0xffdf));
    v.push(def("R14", 0xffdf));
    v.push(def("F35", 0xffe0));
    v.push(def("R15", 0xffe0));
    v.push(def("Shift_L", 0xffe1));
    v.push(def("Shift_R", 0xffe2));
    v.push(def("Control_L", 0xffe3));
    v.push(def("Control_R", 0xffe4));
    v.push(def("Caps_Lock", 0xffe5));
    v.push(def("Shift_Lock", 0xffe6));
    v.push(def("Meta_L", 0xffe7));
    v.push(def("Meta_R", 0xffe8));
    v.push(def("Alt_L", 0xffe9));
    v.push(def("Alt_R", 0xffea));
    v.push(def("Super_L", 0xffeb));
    v.push(def("Super_R", 0xffec));
    v.push(def("Hyper_L", 0xffed));
    v.push(def("Hyper_R", 0xffee));
}

/// Keyboard-extension keys: ISO levels and groups, dead keys.
fn defs_extension(v: &mut Vec<SymEntry>) {
    v.push(def("ISO_Lock", 0xfe01));
    v.push(def("ISO_Level2_Latch", 0xfe02));
    v.push(def("ISO_Level3_Shift", 0xfe03));
    v.push(def("ISO_Level3_Latch", 0xfe04));
    v.push(def("ISO_Level3_Lock", 0xfe05));
    v.push(def("ISO_Level5_Shift", 0xfe11));
    v.push(def("ISO_Level5_Latch", 0xfe12));
    v.push(def("ISO_Level5_Lock", 0xfe13));
    v.push(def("ISO_Group_Shift", 0xff7e));
    v.push(def("ISO_Group_Latch", 0xfe06));
    v.push(def("ISO_Group_Lock", 0xfe07));
    v.push(def("ISO_Next_Group", 0xfe08));
    v.push(def("ISO_Next_Group_Lock", 0xfe09));
    v.push(def("ISO_Prev_Group", 0xfe0a));
    v.push(def("ISO_Prev_Group_Lock", 0xfe0b));
    v.push(def("ISO_First_Group", 0xfe0c));
    v.push(def("ISO_First_Group_Lock", 0xfe0d));
    v.push(def("ISO_Last_Group", 0xfe0e));
    v.push(def("ISO_Last_Group_Lock", 0xfe0f));
    v.push(def("ISO_Left_Tab", 0xfe20));
    v.push(def("ISO_Move_Line_Up", 0xfe21));
    v.push(def("ISO_Move_Line_Down", 0xfe22));
    v.push(def("ISO_Partial_Line_Up", 0xfe23));
    v.push(def("ISO_Partial_Line_Down", 0xfe24));
    v.push(def("ISO_Partial_Space_Left", 0xfe25));
    v.push(def("ISO_Partial_Space_Right", 0xfe26));
    v.push(def("ISO_Set_Margin_Left", 0xfe27));
    v.push(def("ISO_Set_Margin_Right", 0xfe28));
    v.push(def("ISO_Release_Margin_Left", 0xfe29));
    v.push(def("ISO_Release_Margin_Right", 0xfe2a));
    v.push(def("ISO_Release_Both_Margins", 0xfe2b));
    v.push(def("ISO_Fast_Cursor_Left", 0xfe2c));
    v.push(def("ISO_Fast_Cursor_Right", 0xfe2d));
    v.push(def("ISO_Fast_Cursor_Up", 0xfe2e));
    v.push(def("ISO_Fast_Cursor_Down", 0xfe2f));
    v.push(def("ISO_Continuous_Underline", 0xfe30));
    v.push(def("ISO_Discontinuous_Underline", 0xfe31));
    v.push(def("ISO_Emphasize", 0xfe32));
    v.push(def("ISO_Center_Object", 0xfe33));
    v.push(def("ISO_Enter", 0xfe34));
    v.push(def("dead_grave", 0xfe50));
    v.push(def("dead_acute", 0xfe51));
    v.push(def("dead_circumflex", 0xfe52));
    v.push(def("dead_tilde", 0xfe53));
    v.push(def("dead_perispomeni", 0xfe53));
    v.push(def("dead_macron", 0xfe54));
    v.push(def("dead_breve", 0xfe55));
    v.push(def("dead_abovedot", 0xfe56));
    v.push(def("dead_diaeresis", 0xfe57));
    v.push(def("dead_abovering", 0xfe58));
    v.push(def("dead_doubleacute", 0xfe59));
    v.push(def("dead_caron", 0xfe5a));
    v.push(def("dead_cedilla", 0xfe5b));
    v.push(def("dead_ogonek", 0xfe5c));
    v.push(def("dead_iota", 0xfe5d));
    v.push(def("dead_voiced_sound", 0xfe5e));
    v.push(def("dead_semivoiced_sound", 0xfe5f));
    v.push(def("dead_belowdot", 0xfe60));
    v.push(def("dead_hook", 0xfe61));
    v.push(def("dead_horn", 0xfe62));
    v.push(def("dead_stroke", 0xfe63));
    v.push(def("dead_abovecomma", 0xfe64));
    v.push(def("dead_psili", 0xfe64));
    v.push(def("dead_abovereversedcomma", 0xfe65));
    v.push(def("dead_dasia", 0xfe65));
    v.push(def("dead_doublegrave", 0xfe66));
    v.push(def("dead_belowring", 0xfe67));
    v.push(def("dead_belowmacron", 0xfe68));
    v.push(def("dead_belowcircumflex", 0xfe69));
    v.push(def("dead_belowtilde", 0xfe6a));
    v.push(def("dead_belowbreve", 0xfe6b));
    v.push(def("dead_belowdiaeresis", 0xfe6c));
    v.push(def("dead_invertedbreve", 0xfe6d));
    v.push(def("dead_belowcomma", 0xfe6e));
    v.push(def("dead_currency", 0xfe6f));
    v.push(def("dead_lowline", 0xfe90));
    v.push(def("dead_aboveverticalline", 0xfe91));
    v.push(def("dead_belowverticalline", 0xfe92));
    v.push(def("dead_longsolidusoverlay", 0xfe93));
    v.push(def("dead_a", 0xfe80));
    v.push(def("dead_A", 0xfe81));
    v.push(def("dead_e", 0xfe82));
    v.push(def("dead_E", 0xfe83));
    v.push(def("dead_i", 0xfe84));
    v.push(def("dead_I", 0xfe85));
    v.push(def("dead_o", 0xfe86));
    v.push(def("dead_O", 0xfe87));
    v.push(def("dead_u", 0xfe88));
    v.push(def("dead_U", 0xfe89));
    v.push(def("dead_small_schwa", 0xfe8a));
    v.push(def("dead_capital_schwa", 0xfe8b));
    v.push(def("dead_greek", 0xfe8c));
    v.push(def("First_Virtual_Screen", 0xfed0));
    v.push(def("Prev_Virtual_Screen", 0xfed1));
    v.push(def("Next_Virtual_Screen", 0xfed2));
    v.push(def("Last_Virtual_Screen", 0xfed4));
    v.push(def("Terminate_Server", 0xfed5));
    v.push(def("AccessX_Enable", 0xfe70));
    v.push(def("AccessX_Feedback_Enable", 0xfe71));
    v.push(def("RepeatKeys_Enable", 0xfe72));
    v.push(def("SlowKeys_Enable", 0xfe73));
    v.push(def("BounceKeys_Enable", 0xfe74));
    v.push(def("StickyKeys_Enable", 0xfe75));
    v.push(def("MouseKeys_Enable", 0xfe76));
    v.push(def("MouseKeys_Accel_Enable", 0xfe77));
    v.push(def("Overlay1_Enable", 0xfe78));
    v.push(def("Overlay2_Enable", 0xfe79));
    v.push(def("AudibleBell_Enable", 0xfe7a));
    v.push(def("Pointer_Left", 0xfee0));
    v.push(def("Pointer_Right", 0xfee1));
    v.push(def("Pointer_Up", 0xfee2));
    v.push(def("Pointer_Down", 0xfee3));
    v.push(def("Pointer_UpLeft", 0xfee4));
    v.push(def("Pointer_UpRight", 0xfee5));
    v.push(def("Pointer_DownLeft", 0xfee6));
    v.push(def("Pointer_DownRight", 0xfee7));
    v.push(def("Pointer_Button_Dflt", 0xfee8));
    v.push(def("Pointer_Button1", 0xfee9));
    v.push(def("Pointer_Button2", 0xfeea));
    v.push(def("Pointer_Button3", 0xfeeb));
    v.push(def("Pointer_Button4", 0xfeec));
    v.push(def("Pointer_Button5", 0xfeed));
    v.push(def("Pointer_DblClick_Dflt", 0xfeee));
    v.push(def("Pointer_DblClick1", 0xfeef));
    v.push(def("Pointer_DblClick2", 0xfef0));
    v.push(def("Pointer_DblClick3", 0xfef1));
    v.push(def("Pointer_DblClick4", 0xfef2));
    v.push(def("Pointer_DblClick5", 0xfef3));
    v.push(def("Pointer_Drag_Dflt", 0xfef4));
    v.push(def("Pointer_Drag1", 0xfef5));
    v.push(def("Pointer_Drag2", 0xfef6));
    v.push(def("Pointer_Drag3", 0xfef7));
    v.push(def("Pointer_Drag4", 0xfef8));
    v.push(def("Pointer_Drag5", 0xfefd));
    v.push(def("Pointer_EnableKeys", 0xfef9));
    v.push(def("Pointer_Accelerate", 0xfefa));
    v.push(def("Pointer_DfltBtnNext", 0xfefb));
    v.push(def("Pointer_DfltBtnPrev", 0xfefc));
    v.push(def("ch", 0xfea0));
    v.push(def("Ch", 0xfea1));
    v.push(def("CH", 0xfea2));
    v.push(def("c_h", 0xfea3));
    v.push(def("C_h", 0xfea4));
    v.push(def("C_H", 0xfea5));
}

/// Terminal-emulation keys.
fn defs_terminal(v: &mut Vec<SymEntry>) {
    v.push(def("3270_Duplicate", 0xfd01));
    v.push(def("3270_FieldMark", 0xfd02));
    v.push(def("3270_Right2", 0xfd03));
    v.push(def("3270_Left2", 0xfd04));
    v.push(def("3270_BackTab", 0xfd05));
    v.push(def("3270_EraseEOF", 0xfd06));
    v.push(def("3270_EraseInput", 0xfd07));
    v.push(def("3270_Reset", 0xfd08));
    v.push(def("3270_Quit", 0xfd09));
    v.push(def("3270_PA1", 0xfd0a));
    v.push(def("3270_PA2", 0xfd0b));
    v.push(def("3270_PA3", 0xfd0c));
    v.push(def("3270_Test", 0xfd0d));
    v.push(def("3270_Attn", 0xfd0e));
    v.push(def("3270_CursorBlink", 0xfd0f));
    v.push(def("3270_AltCursor", 0xfd10));
    v.push(def("3270_KeyClick", 0xfd11));
    v.push(def("3270_Jump", 0xfd12));
    v.push(def("3270_Ident", 0xfd13));
    v.push(def("3270_Rule", 0xfd14));
    v.push(def("3270_Copy", 0xfd15));
    v.push(def("3270_Play", 0xfd16));
    v.push(def("3270_Setup", 0xfd17));
    v.push(def("3270_Record", 0xfd18));
    v.push(def("3270_ChangeScreen", 0xfd19));
    v.push(def("3270_DeleteWord", 0xfd1a));
    v.push(def("3270_ExSelect", 0xfd1b));
    v.push(def("3270_CursorSelect", 0xfd1c));
    v.push(def("3270_PrintScreen", 0xfd1d));
    v.push(def("3270_Enter", 0xfd1e));
}

/// The printable Latin-1 range.
fn defs_latin1(v: &mut Vec<SymEntry>) {
    v.push(def("space", 0x20));
    v.push(def("exclam", 0x21));
    v.push(def("quotedbl", 0x22));
    v.push(def("numbersign", 0x23));
    v.push(def("dollar", 0x24));
    v.push(def("percent", 0x25));
    v.push(def("ampersand", 0x26));
    v.push(def("apostrophe", 0x27));
    v.push(def("quoteright", 0x27));
    v.push(def("parenleft", 0x28));
    v.push(def("parenright", 0x29));
    v.push(def("asterisk", 0x2a));
    v.push(def("plus", 0x2b));
    v.push(def("comma", 0x2c));
    v.push(def("minus", 0x2d));
    v.push(def("period", 0x2e));
    v.push(def("slash", 0x2f));
    v.push(def("0", 0x30));
    v.push(def("1", 0x31));
    v.push(def("2", 0x32));
    v.push(def("3", 0x33));
    v.push(def("4", 0x34));
    v.push(def("5", 0x35));
    v.push(def("6", 0x36));
    v.push(def("7", 0x37));
    v.push(def("8", 0x38));
    v.push(def("9", 0x39));
    v.push(def("colon", 0x3a));
    v.push(def("semicolon", 0x3b));
    v.push(def("less", 0x3c));
    v.push(def("equal", 0x3d));
    v.push(def("greater", 0x3e));
    v.push(def("question", 0x3f));
    v.push(def("at", 0x40));
    v.push(def("A", 0x41));
    v.push(def("B", 0x42));
    v.push(def("C", 0x43));
    v.push(def("D", 0x44));
    v.push(def("E", 0x45));
    v.push(def("F", 0x46));
    v.push(def("G", 0x47));
    v.push(def("H", 0x48));
    v.push(def("I", 0x49));
    v.push(def("J", 0x4a));
    v.push(def("K", 0x4b));
    v.push(def("L", 0x4c));
    v.push(def("M", 0x4d));
    v.push(def("N", 0x4e));
    v.push(def("O", 0x4f));
    v.push(def("P", 0x50));
    v.push(def("Q", 0x51));
    v.push(def("R", 0x52));
    v.push(def("S", 0x53));
    v.push(def("T", 0x54));
    v.push(def("U", 0x55));
    v.push(def("V", 0x56));
    v.push(def("W", 0x57));
    v.push(def("X", 0x58));
    v.push(def("Y", 0x59));
    v.push(def("Z", 0x5a));
    v.push(def("bracketleft", 0x5b));
    v.push(def("backslash", 0x5c));
    v.push(def("bracketright", 0x5d));
    v.push(def("asciicircum", 0x5e));
    v.push(def("underscore", 0x5f));
    v.push(def("grave", 0x60));
    v.push(def("quoteleft", 0x60));
    v.push(def("a", 0x61));
    v.push(def("b", 0x62));
    v.push(def("c", 0x63));
    v.push(def("d", 0x64));
    v.push(def("e", 0x65));
    v.push(def("f", 0x66));
    v.push(def("g", 0x67));
    v.push(def("h", 0x68));
    v.push(def("i", 0x69));
    v.push(def("j", 0x6a));
    v.push(def("k", 0x6b));
    v.push(def("l", 0x6c));
    v.push(def("m", 0x6d));
    v.push(def("n", 0x6e));
    v.push(def("o", 0x6f));
    v.push(def("p", 0x70));
    v.push(def("q", 0x71));
    v.push(def("r", 0x72));
    v.push(def("s", 0x73));
    v.push(def("t", 0x74));
    v.push(def("u", 0x75));
    v.push(def("v", 0x76));
    v.push(def("w", 0x77));
    v.push(def("x", 0x78));
    v.push(def("y", 0x79));
    v.push(def("z", 0x7a));
    v.push(def("braceleft", 0x7b));
    v.push(def("bar", 0x7c));
    v.push(def("braceright", 0x7d));
    v.push(def("asciitilde", 0x7e));
    v.push(def("nobreakspace", 0xa0));
    v.push(def("exclamdown", 0xa1));
    v.push(def("cent", 0xa2));
    v.push(def("sterling", 0xa3));
    v.push(def("currency", 0xa4));
    v.push(def("yen", 0xa5));
    v.push(def("brokenbar", 0xa6));
    v.push(def("section", 0xa7));
    v.push(def("diaeresis", 0xa8));
    v.push(def("copyright", 0xa9));
    v.push(def("ordfeminine", 0xaa));
    v.push(def("guillemotleft", 0xab));
    v.push(def("notsign", 0xac));
    v.push(def("hyphen", 0xad));
    v.push(def("registered", 0xae));
    v.push(def("macron", 0xaf));
    v.push(def("degree", 0xb0));
    v.push(def("plusminus", 0xb1));
    v.push(def("twosuperior", 0xb2));
    v.push(def("threesuperior", 0xb3));
    v.push(def("acute", 0xb4));
    v.push(def("mu", 0xb5));
    v.push(def("paragraph", 0xb6));
    v.push(def("periodcentered", 0xb7));
    v.push(def("cedilla", 0xb8));
    v.push(def("onesuperior", 0xb9));
    v.push(def("masculine", 0xba));
    v.push(def("guillemotright", 0xbb));
    v.push(def("onequarter", 0xbc));
    v.push(def("onehalf", 0xbd));
    v.push(def("threequarters", 0xbe));
    v.push(def("questiondown", 0xbf));
    v.push(def("Agrave", 0xc0));
    v.push(def("Aacute", 0xc1));
    v.push(def("Acircumflex", 0xc2));
    v.push(def("Atilde", 0xc3));
    v.push(def("Adiaeresis", 0xc4));
    v.push(def("Aring", 0xc5));
    v.push(def("AE", 0xc6));
    v.push(def("Ccedilla", 0xc7));
    v.push(def("Egrave", 0xc8));
    v.push(def("Eacute", 0xc9));
    v.push(def("Ecircumflex", 0xca));
    v.push(def("Ediaeresis", 0xcb));
    v.push(def("Igrave", 0xcc));
    v.push(def("Iacute", 0xcd));
    v.push(def("Icircumflex", 0xce));
    v.push(def("Idiaeresis", 0xcf));
    v.push(def("ETH", 0xd0));
    v.push(def("Eth", 0xd0));
    v.push(def("Ntilde", 0xd1));
    v.push(def("Ograve", 0xd2));
    v.push(def("Oacute", 0xd3));
    v.push(def("Ocircumflex", 0xd4));
    v.push(def("Otilde", 0xd5));
    v.push(def("Odiaeresis", 0xd6));
    v.push(def("multiply", 0xd7));
    v.push(def("Oslash", 0xd8));
    v.push(def("Ooblique", 0xd8));
    v.push(def("Ugrave", 0xd9));
    v.push(def("Uacute", 0xda));
    v.push(def("Ucircumflex", 0xdb));
    v.push(def("Udiaeresis", 0xdc));
    v.push(def("Yacute", 0xdd));
    v.push(def("THORN", 0xde));
    v.push(def("Thorn", 0xde));
    v.push(def("ssharp", 0xdf));
    v.push(def("agrave", 0xe0));
    v.push(def("aacute", 0xe1));
    v.push(def("acircumflex", 0xe2));
    v.push(def("atilde", 0xe3));
    v.push(def("adiaeresis", 0xe4));
    v.push(def("aring", 0xe5));
    v.push(def("ae", 0xe6));
    v.push(def("ccedilla", 0xe7));
    v.push(def("egrave", 0xe8));
    v.push(def("eacute", 0xe9));
    v.push(def("ecircumflex", 0xea));
    v.push(def("ediaeresis", 0xeb));
    v.push(def("igrave", 0xec));
    v.push(def("iacute", 0xed));
    v.push(def("icircumflex", 0xee));
    v.push(def("idiaeresis", 0xef));
    v.push(def("eth", 0xf0));
    v.push(def("ntilde", 0xf1));
    v.push(def("ograve", 0xf2));
    v.push(def("oacute", 0xf3));
    v.push(def("ocircumflex", 0xf4));
    v.push(def("otilde", 0xf5));
    v.push(def("odiaeresis", 0xf6));
    v.push(def("division", 0xf7));
    v.push(def("oslash", 0xf8));
    v.push(def("ooblique", 0xf8));
    v.push(def("ugrave", 0xf9));
    v.push(def("uacute", 0xfa));
    v.push(def("ucircumflex", 0xfb));
    v.push(def("udiaeresis", 0xfc));
    v.push(def("yacute", 0xfd));
    v.push(def("thorn", 0xfe));
    v.push(def("ydiaeresis", 0xff));
}

/// Latin-2.
fn defs_latin2(v: &mut Vec<SymEntry>) {
    v.push(def("Aogonek", 0x1a1));
    v.push(def("breve", 0x1a2));
    v.push(def("Lstroke", 0x1a3));
    v.push(def("Lcaron", 0x1a5));
    v.push(def("Sacute", 0x1a6));
    v.push(def("Scaron", 0x1a9));
    v.push(def("Scedilla", 0x1aa));
    v.push(def("Tcaron", 0x1ab));
    v.push(def("Zacute", 0x1ac));
    v.push(def("Zcaron", 0x1ae));
    v.push(def("Zabovedot", 0x1af));
    v.push(def("aogonek", 0x1b1));
    v.push(def("ogonek", 0x1b2));
    v.push(def("lstroke", 0x1b3));
    v.push(def("lcaron", 0x1b5));
    v.push(def("sacute", 0x1b6));
    v.push(def("caron", 0x1b7));
    v.push(def("scaron", 0x1b9));
    v.push(def("scedilla", 0x1ba));
    v.push(def("tcaron", 0x1bb));
    v.push(def("zacute", 0x1bc));
    v.push(def("doubleacute", 0x1bd));
    v.push(def("zcaron", 0x1be));
    v.push(def("zabovedot", 0x1bf));
    v.push(def("Racute", 0x1c0));
    v.push(def("Abreve", 0x1c3));
    v.push(def("Lacute", 0x1c5));
    v.push(def("Cacute", 0x1c6));
    v.push(def("Ccaron", 0x1c8));
    v.push(def("Eogonek", 0x1ca));
    v.push(def("Ecaron", 0x1cc));
    v.push(def("Dcaron", 0x1cf));
    v.push(def("Dstroke", 0x1d0));
    v.push(def("Nacute", 0x1d1));
    v.push(def("Ncaron", 0x1d2));
    v.push(def("Odoubleacute", 0x1d5));
    v.push(def("Rcaron", 0x1d8));
    v.push(def("Uring", 0x1d9));
    v.push(def("Udoubleacute", 0x1db));
    v.push(def("Tcedilla", 0x1de));
    v.push(def("racute", 0x1e0));
    v.push(def("abreve", 0x1e3));
    v.push(def("lacute", 0x1e5));
    v.push(def("cacute", 0x1e6));
    v.push(def("ccaron", 0x1e8));
    v.push(def("eogonek", 0x1ea));
    v.push(def("ecaron", 0x1ec));
    v.push(def("dcaron", 0x1ef));
    v.push(def("dstroke", 0x1f0));
    v.push(def("nacute", 0x1f1));
    v.push(def("ncaron", 0x1f2));
    v.push(def("odoubleacute", 0x1f5));
    v.push(def("rcaron", 0x1f8));
    v.push(def("uring", 0x1f9));
    v.push(def("udoubleacute", 0x1fb));
    v.push(def("tcedilla", 0x1fe));
    v.push(def("abovedot", 0x1ff));
}

/// Latin-3.
fn defs_latin3(v: &mut Vec<SymEntry>) {
    v.push(def("Hstroke", 0x2a1));
    v.push(def("Hcircumflex", 0x2a6));
    v.push(def("Iabovedot", 0x2a9));
    v.push(def("Gbreve", 0x2ab));
    v.push(def("Jcircumflex", 0x2ac));
    v.push(def("hstroke", 0x2b1));
    v.push(def("hcircumflex", 0x2b6));
    v.push(def("idotless", 0x2b9));
    v.push(def("gbreve", 0x2bb));
    v.push(def("jcircumflex", 0x2bc));
    v.push(def("Cabovedot", 0x2c5));
    v.push(def("Ccircumflex", 0x2c6));
    v.push(def("Gabovedot", 0x2d5));
    v.push(def("Gcircumflex", 0x2d8));
    v.push(def("Ubreve", 0x2dd));
    v.push(def("Scircumflex", 0x2de));
    v.push(def("cabovedot", 0x2e5));
    v.push(def("ccircumflex", 0x2e6));
    v.push(def("gabovedot", 0x2f5));
    v.push(def("gcircumflex", 0x2f8));
    v.push(def("ubreve", 0x2fd));
    v.push(def("scircumflex", 0x2fe));
}

/// Latin-4.
fn defs_latin4(v: &mut Vec<SymEntry>) {
    v.push(def("kra", 0x3a2));
    v.push(def("kappa", 0x3a2));
    v.push(def("Rcedilla", 0x3a3));
    v.push(def("Itilde", 0x3a5));
    v.push(def("Lcedilla", 0x3a6));
    v.push(def("Emacron", 0x3aa));
    v.push(def("Gcedilla", 0x3ab));
    v.push(def("Tslash", 0x3ac));
    v.push(def("rcedilla", 0x3b3));
    v.push(def("itilde", 0x3b5));
    v.push(def("lcedilla", 0x3b6));
    v.push(def("emacron", 0x3ba));
    v.push(def("gcedilla", 0x3bb));
    v.push(def("tslash", 0x3bc));
    v.push(def("ENG", 0x3bd));
    v.push(def("eng", 0x3bf));
    v.push(def("Amacron", 0x3c0));
    v.push(def("Iogonek", 0x3c7));
    v.push(def("Eabovedot", 0x3cc));
    v.push(def("Imacron", 0x3cf));
    v.push(def("Ncedilla", 0x3d1));
    v.push(def("Omacron", 0x3d2));
    v.push(def("Kcedilla", 0x3d3));
    v.push(def("Uogonek", 0x3d9));
    v.push(def("Utilde", 0x3dd));
    v.push(def("Umacron", 0x3de));
    v.push(def("amacron", 0x3e0));
    v.push(def("iogonek", 0x3e7));
    v.push(def("eabovedot", 0x3ec));
    v.push(def("imacron", 0x3ef));
    v.push(def("ncedilla", 0x3f1));
    v.push(def("omacron", 0x3f2));
    v.push(def("kcedilla", 0x3f3));
    v.push(def("uogonek", 0x3f9));
    v.push(def("utilde", 0x3fd));
    v.push(def("umacron", 0x3fe));
}

/// Latin-8.
fn defs_latin8(v: &mut Vec<SymEntry>) {
    v.push(def("Wcircumflex", 0x1000174));
    v.push(def("wcircumflex", 0x1000175));
    v.push(def("Ycircumflex", 0x1000176));
    v.push(def("ycircumflex", 0x1000177));
    v.push(def("Babovedot", 0x1001e02));
    v.push(def("babovedot", 0x1001e03));
    v.push(def("Dabovedot", 0x1001e0a));
    v.push(def("dabovedot", 0x1001e0b));
    v.push(def("Fabovedot", 0x1001e1e));
    v.push(def("fabovedot", 0x1001e1f));
    v.push(def("Mabovedot", 0x1001e40));
    v.push(def("mabovedot", 0x1001e41));
    v.push(def("Pabovedot", 0x1001e56));
    v.push(def("pabovedot", 0x1001e57));
    v.push(def("Sabovedot", 0x1001e60));
    v.push(def("sabovedot", 0x1001e61));
    v.push(def("Tabovedot", 0x1001e6a));
    v.push(def("tabovedot", 0x1001e6b));
    v.push(def("Wgrave", 0x1001e80));
    v.push(def("wgrave", 0x1001e81));
    v.push(def("Wacute", 0x1001e82));
    v.push(def("wacute", 0x1001e83));
    v.push(def("Wdiaeresis", 0x1001e84));
    v.push(def("wdiaeresis", 0x1001e85));
    v.push(def("Ygrave", 0x1001ef2));
    v.push(def("ygrave", 0x1001ef3));
}

/// Latin-9.
fn defs_latin9(v: &mut Vec<SymEntry>) {
    v.push(def("OE", 0x13bc));
    v.push(def("oe", 0x13bd));
    v.push(def("Ydiaeresis", 0x13be));
}

/// Katakana.
fn defs_katakana(v: &mut Vec<SymEntry>) {
    v.push(def("overline", 0x47e));
    v.push(def("kana_fullstop", 0x4a1));
    v.push(def("kana_openingbracket", 0x4a2));
    v.push(def("kana_closingbracket", 0x4a3));
    v.push(def("kana_comma", 0x4a4));
    v.push(def("kana_conjunctive", 0x4a5));
    v.push(def("kana_middledot", 0x4a5));
    v.push(def("kana_WO", 0x4a6));
    v.push(def("kana_a", 0x4a7));
    v.push(def("kana_i", 0x4a8));
    v.push(def("kana_u", 0x4a9));
    v.push(def("kana_e", 0x4aa));
    v.push(def("kana_o", 0x4ab));
    v.push(def("kana_ya", 0x4ac));
    v.push(def("kana_yu", 0x4ad));
    v.push(def("kana_yo", 0x4ae));
    v.push(def("kana_tsu", 0x4af));
    v.push(def("kana_tu", 0x4af));
    v.push(def("prolongedsound", 0x4b0));
    v.push(def("kana_A", 0x4b1));
    v.push(def("kana_I", 0x4b2));
    v.push(def("kana_U", 0x4b3));
    v.push(def("kana_E", 0x4b4));
    v.push(def("kana_O", 0x4b5));
    v.push(def("kana_KA", 0x4b6));
    v.push(def("kana_KI", 0x4b7));
    v.push(def("kana_KU", 0x4b8));
    v.push(def("kana_KE", 0x4b9));
    v.push(def("kana_KO", 0x4ba));
    v.push(def("kana_SA", 0x4bb));
    v.push(def("kana_SHI", 0x4bc));
    v.push(def("kana_SU", 0x4bd));
    v.push(def("kana_SE", 0x4be));
    v.push(def("kana_SO", 0x4bf));
    v.push(def("kana_TA", 0x4c0));
    v.push(def("kana_CHI", 0x4c1));
    v.push(def("kana_TI", 0x4c1));
    v.push(def("kana_TSU", 0x4c2));
    v.push(def("kana_TU", 0x4c2));
    v.push(def("kana_TE", 0x4c3));
    v.push(def("kana_TO", 0x4c4));
    v.push(def("kana_NA", 0x4c5));
    v.push(def("kana_NI", 0x4c6));
    v.push(def("kana_NU", 0x4c7));
    v.push(def("kana_NE", 0x4c8));
    v.push(def("kana_NO", 0x4c9));
    v.push(def("kana_HA", 0x4ca));
    v.push(def("kana_HI", 0x4cb));
    v.push(def("kana_FU", 0x4cc));
    v.push(def("kana_HU", 0x4cc));
    v.push(def("kana_HE", 0x4cd));
    v.push(def("kana_HO", 0x4ce));
    v.push(def("kana_MA", 0x4cf));
    v.push(def("kana_MI", 0x4d0));
    v.push(def("kana_MU", 0x4d1));
    v.push(def("kana_ME", 0x4d2));
    v.push(def("kana_MO", 0x4d3));
    v.push(def("kana_YA", 0x4d4));
    v.push(def("kana_YU", 0x4d5));
    v.push(def("kana_YO", 0x4d6));
    v.push(def("kana_RA", 0x4d7));
    v.push(def("kana_RI", 0x4d8));
    v.push(def("kana_RU", 0x4d9));
    v.push(def("kana_RE", 0x4da));
    v.push(def("kana_RO", 0x4db));
    v.push(def("kana_WA", 0x4dc));
    v.push(def("kana_N", 0x4dd));
    v.push(def("voicedsound", 0x4de));
    v.push(def("semivoicedsound", 0x4df));
    v.push(def("kana_switch", 0xff7e));
}

/// Arabic.
fn defs_arabic(v: &mut Vec<SymEntry>) {
    v.push(def("Farsi_0", 0x10006f0));
    v.push(def("Farsi_1", 0x10006f1));
    v.push(def("Farsi_2", 0x10006f2));
    v.push(def("Farsi_3", 0x10006f3));
    v.push(def("Farsi_4", 0x10006f4));
    v.push(def("Farsi_5", 0x10006f5));
    v.push(def("Farsi_6", 0x10006f6));
    v.push(def("Farsi_7", 0x10006f7));
    v.push(def("Farsi_8", 0x10006f8));
    v.push(def("Farsi_9", 0x10006f9));
    v.push(def("Arabic_percent", 0x100066a));
    v.push(def("Arabic_superscript_alef", 0x1000670));
    v.push(def("Arabic_tteh", 0x1000679));
    v.push(def("Arabic_peh", 0x100067e));
    v.push(def("Arabic_tcheh", 0x1000686));
    v.push(def("Arabic_ddal", 0x1000688));
    v.push(def("Arabic_rreh", 0x1000691));
    v.push(def("Arabic_comma", 0x5ac));
    v.push(def("Arabic_fullstop", 0x10006d4));
    v.push(def("Arabic_0", 0x1000660));
    v.push(def("Arabic_1", 0x1000661));
    v.push(def("Arabic_2", 0x1000662));
    v.push(def("Arabic_3", 0x1000663));
    v.push(def("Arabic_4", 0x1000664));
    v.push(def("Arabic_5", 0x1000665));
    v.push(def("Arabic_6", 0x1000666));
    v.push(def("Arabic_7", 0x1000667));
    v.push(def("Arabic_8", 0x1000668));
    v.push(def("Arabic_9", 0x1000669));
    v.push(def("Arabic_semicolon", 0x5bb));
    v.push(def("Arabic_question_mark", 0x5bf));
    v.push(def("Arabic_hamza", 0x5c1));
    v.push(def("Arabic_maddaonalef", 0x5c2));
    v.push(def("Arabic_hamzaonalef", 0x5c3));
    v.push(def("Arabic_hamzaonwaw", 0x5c4));
    v.push(def("Arabic_hamzaunderalef", 0x5c5));
    v.push(def("Arabic_hamzaonyeh", 0x5c6));
    v.push(def("Arabic_alef", 0x5c7));
    v.push(def("Arabic_beh", 0x5c8));
    v.push(def("Arabic_tehmarbuta", 0x5c9));
    v.push(def("Arabic_teh", 0x5ca));
    v.push(def("Arabic_theh", 0x5cb));
    v.push(def("Arabic_jeem", 0x5cc));
    v.push(def("Arabic_hah", 0x5cd));
    v.push(def("Arabic_khah", 0x5ce));
    v.push(def("Arabic_dal", 0x5cf));
    v.push(def("Arabic_thal", 0x5d0));
    v.push(def("Arabic_ra", 0x5d1));
    v.push(def("Arabic_zain", 0x5d2));
    v.push(def("Arabic_seen", 0x5d3));
    v.push(def("Arabic_sheen", 0x5d4));
    v.push(def("Arabic_sad", 0x5d5));
    v.push(def("Arabic_dad", 0x5d6));
    v.push(def("Arabic_tah", 0x5d7));
    v.push(def("Arabic_zah", 0x5d8));
    v.push(def("Arabic_ain", 0x5d9));
    v.push(def("Arabic_ghain", 0x5da));
    v.push(def("Arabic_tatweel", 0x5e0));
    v.push(def("Arabic_feh", 0x5e1));
    v.push(def("Arabic_qaf", 0x5e2));
    v.push(def("Arabic_kaf", 0x5e3));
    v.push(def("Arabic_lam", 0x5e4));
    v.push(def("Arabic_meem", 0x5e5));
    v.push(def("Arabic_noon", 0x5e6));
    v.push(def("Arabic_ha", 0x5e7));
    v.push(def("Arabic_heh", 0x5e7));
    v.push(def("Arabic_waw", 0x5e8));
    v.push(def("Arabic_alefmaksura", 0x5e9));
    v.push(def("Arabic_yeh", 0x5ea));
    v.push(def("Arabic_fathatan", 0x5eb));
    v.push(def("Arabic_dammatan", 0x5ec));
    v.push(def("Arabic_kasratan", 0x5ed));
    v.push(def("Arabic_fatha", 0x5ee));
    v.push(def("Arabic_damma", 0x5ef));
    v.push(def("Arabic_kasra", 0x5f0));
    v.push(def("Arabic_shadda", 0x5f1));
    v.push(def("Arabic_sukun", 0x5f2));
    v.push(def("Arabic_madda_above", 0x1000653));
    v.push(def("Arabic_hamza_above", 0x1000654));
    v.push(def("Arabic_hamza_below", 0x1000655));
    v.push(def("Arabic_jeh", 0x1000698));
    v.push(def("Arabic_veh", 0x10006a4));
    v.push(def("Arabic_keheh", 0x10006a9));
    v.push(def("Arabic_gaf", 0x10006af));
    v.push(def("Arabic_noon_ghunna", 0x10006ba));
    v.push(def("Arabic_heh_doachashmee", 0x10006be));
    v.push(def("Farsi_yeh", 0x10006cc));
    v.push(def("Arabic_farsi_yeh", 0x10006cc));
    v.push(def("Arabic_yeh_baree", 0x10006d2));
    v.push(def("Arabic_heh_goal", 0x10006c1));
    v.push(def("Arabic_switch", 0xff7e));
}

/// Cyrillic.
fn defs_cyrillic(v: &mut Vec<SymEntry>) {
    v.push(def("Cyrillic_GHE_bar", 0x1000492));
    v.push(def("Cyrillic_ghe_bar", 0x1000493));
    v.push(def("Cyrillic_ZHE_descender", 0x1000496));
    v.push(def("Cyrillic_zhe_descender", 0x1000497));
    v.push(def("Cyrillic_KA_descender", 0x100049a));
    v.push(def("Cyrillic_ka_descender", 0x100049b));
    v.push(def("Cyrillic_KA_vertstroke", 0x100049c));
    v.push(def("Cyrillic_ka_vertstroke", 0x100049d));
    v.push(def("Cyrillic_EN_descender", 0x10004a2));
    v.push(def("Cyrillic_en_descender", 0x10004a3));
    v.push(def("Cyrillic_U_straight", 0x10004ae));
    v.push(def("Cyrillic_u_straight", 0x10004af));
    v.push(def("Cyrillic_U_straight_bar", 0x10004b0));
    v.push(def("Cyrillic_u_straight_bar", 0x10004b1));
    v.push(def("Cyrillic_HA_descender", 0x10004b2));
    v.push(def("Cyrillic_ha_descender", 0x10004b3));
    v.push(def("Cyrillic_CHE_descender", 0x10004b6));
    v.push(def("Cyrillic_che_descender", 0x10004b7));
    v.push(def("Cyrillic_CHE_vertstroke", 0x10004b8));
    v.push(def("Cyrillic_che_vertstroke", 0x10004b9));
    v.push(def("Cyrillic_SHHA", 0x10004ba));
    v.push(def("Cyrillic_shha", 0x10004bb));
    v.push(def("Cyrillic_SCHWA", 0x10004d8));
    v.push(def("Cyrillic_schwa", 0x10004d9));
    v.push(def("Cyrillic_I_macron", 0x10004e2));
    v.push(def("Cyrillic_i_macron", 0x10004e3));
    v.push(def("Cyrillic_O_bar", 0x10004e8));
    v.push(def("Cyrillic_o_bar", 0x10004e9));
    v.push(def("Cyrillic_U_macron", 0x10004ee));
    v.push(def("Cyrillic_u_macron", 0x10004ef));
    v.push(def("Serbian_dje", 0x6a1));
    v.push(def("Macedonia_gje", 0x6a2));
    v.push(def("Cyrillic_io", 0x6a3));
    v.push(def("Ukrainian_ie", 0x6a4));
    v.push(def("Ukranian_je", 0x6a4));
    v.push(def("Macedonia_dse", 0x6a5));
    v.push(def("Ukrainian_i", 0x6a6));
    v.push(def("Ukranian_i", 0x6a6));
    v.push(def("Ukrainian_yi", 0x6a7));
    v.push(def("Ukranian_yi", 0x6a7));
    v.push(def("Cyrillic_je", 0x6a8));
    v.push(def("Serbian_je", 0x6a8));
    v.push(def("Cyrillic_lje", 0x6a9));
    v.push(def("Serbian_lje", 0x6a9));
    v.push(def("Cyrillic_nje", 0x6aa));
    v.push(def("Serbian_nje", 0x6aa));
    v.push(def("Serbian_tshe", 0x6ab));
    v.push(def("Macedonia_kje", 0x6ac));
    v.push(def("Ukrainian_ghe_with_upturn", 0x6ad));
    v.push(def("Byelorussian_shortu", 0x6ae));
    v.push(def("Cyrillic_dzhe", 0x6af));
    v.push(def("Serbian_dze", 0x6af));
    v.push(def("numerosign", 0x6b0));
    v.push(def("Serbian_DJE", 0x6b1));
    v.push(def("Macedonia_GJE", 0x6b2));
    v.push(def("Cyrillic_IO", 0x6b3));
    v.push(def("Ukrainian_IE", 0x6b4));
    v.push(def("Ukranian_JE", 0x6b4));
    v.push(def("Macedonia_DSE", 0x6b5));
    v.push(def("Ukrainian_I", 0x6b6));
    v.push(def("Ukranian_I", 0x6b6));
    v.push(def("Ukrainian_YI", 0x6b7));
    v.push(def("Ukranian_YI", 0x6b7));
    v.push(def("Cyrillic_JE", 0x6b8));
    v.push(def("Serbian_JE", 0x6b8));
    v.push(def("Cyrillic_LJE", 0x6b9));
    v.push(def("Serbian_LJE", 0x6b9));
    v.push(def("Cyrillic_NJE", 0x6ba));
    v.push(def("Serbian_NJE", 0x6ba));
    v.push(def("Serbian_TSHE", 0x6bb));
    v.push(def("Macedonia_KJE", 0x6bc));
    v.push(def("Ukrainian_GHE_WITH_UPTURN", 0x6bd));
    v.push(def("Byelorussian_SHORTU", 0x6be));
    v.push(def("Cyrillic_DZHE", 0x6bf));
    v.push(def("Serbian_DZE", 0x6bf));
    v.push(def("Cyrillic_yu", 0x6c0));
    v.push(def("Cyrillic_a", 0x6c1));
    v.push(def("Cyrillic_be", 0x6c2));
    v.push(def("Cyrillic_tse", 0x6c3));
    v.push(def("Cyrillic_de", 0x6c4));
    v.push(def("Cyrillic_ie", 0x6c5));
    v.push(def("Cyrillic_ef", 0x6c6));
    v.push(def("Cyrillic_ghe", 0x6c7));
    v.push(def("Cyrillic_ha", 0x6c8));
    v.push(def("Cyrillic_i", 0x6c9));
    v.push(def("Cyrillic_shorti", 0x6ca));
    v.push(def("Cyrillic_ka", 0x6cb));
    v.push(def("Cyrillic_el", 0x6cc));
    v.push(def("Cyrillic_em", 0x6cd));
    v.push(def("Cyrillic_en", 0x6ce));
    v.push(def("Cyrillic_o", 0x6cf));
    v.push(def("Cyrillic_pe", 0x6d0));
    v.push(def("Cyrillic_ya", 0x6d1));
    v.push(def("Cyrillic_er", 0x6d2));
    v.push(def("Cyrillic_es", 0x6d3));
    v.push(def("Cyrillic_te", 0x6d4));
    v.push(def("Cyrillic_u", 0x6d5));
    v.push(def("Cyrillic_zhe", 0x6d6));
    v.push(def("Cyrillic_ve", 0x6d7));
    v.push(def("Cyrillic_softsign", 0x6d8));
    v.push(def("Cyrillic_yeru", 0x6d9));
    v.push(def("Cyrillic_ze", 0x6da));
    v.push(def("Cyrillic_sha", 0x6db));
    v.push(def("Cyrillic_e", 0x6dc));
    v.push(def("Cyrillic_shcha", 0x6dd));
    v.push(def("Cyrillic_che", 0x6de));
    v.push(def("Cyrillic_hardsign", 0x6df));
    v.push(def("Cyrillic_YU", 0x6e0));
    v.push(def("Cyrillic_A", 0x6e1));
    v.push(def("Cyrillic_BE", 0x6e2));
    v.push(def("Cyrillic_TSE", 0x6e3));
    v.push(def("Cyrillic_DE", 0x6e4));
    v.push(def("Cyrillic_IE", 0x6e5));
    v.push(def("Cyrillic_EF", 0x6e6));
    v.push(def("Cyrillic_GHE", 0x6e7));
    v.push(def("Cyrillic_HA", 0x6e8));
    v.push(def("Cyrillic_I", 0x6e9));
    v.push(def("Cyrillic_SHORTI", 0x6ea));
    v.push(def("Cyrillic_KA", 0x6eb));
    v.push(def("Cyrillic_EL", 0x6ec));
    v.push(def("Cyrillic_EM", 0x6ed));
    v.push(def("Cyrillic_EN", 0x6ee));
    v.push(def("Cyrillic_O", 0x6ef));
    v.push(def("Cyrillic_PE", 0x6f0));
    v.push(def("Cyrillic_YA", 0x6f1));
    v.push(def("Cyrillic_ER", 0x6f2));
    v.push(def("Cyrillic_ES", 0x6f3));
    v.push(def("Cyrillic_TE", 0x6f4));
    v.push(def("Cyrillic_U", 0x6f5));
    v.push(def("Cyrillic_ZHE", 0x6f6));
    v.push(def("Cyrillic_VE", 0x6f7));
    v.push(def("Cyrillic_SOFTSIGN", 0x6f8));
    v.push(def("Cyrillic_YERU", 0x6f9));
    v.push(def("Cyrillic_ZE", 0x6fa));
    v.push(def("Cyrillic_SHA", 0x6fb));
    v.push(def("Cyrillic_E", 0x6fc));
    v.push(def("Cyrillic_SHCHA", 0x6fd));
    v.push(def("Cyrillic_CHE", 0x6fe));
    v.push(def("Cyrillic_HARDSIGN", 0x6ff));
}

/// Greek.
fn defs_greek(v: &mut Vec<SymEntry>) {
    v.push(def("Greek_ALPHAaccent", 0x7a1));
    v.push(def("Greek_EPSILONaccent", 0x7a2));
    v.push(def("Greek_ETAaccent", 0x7a3));
    v.push(def("Greek_IOTAaccent", 0x7a4));
    v.push(def("Greek_IOTAdieresis", 0x7a5));
    v.push(def("Greek_IOTAdiaeresis", 0x7a5));
    v.push(def("Greek_OMICRONaccent", 0x7a7));
    v.push(def("Greek_UPSILONaccent", 0x7a8));
    v.push(def("Greek_UPSILONdieresis", 0x7a9));
    v.push(def("Greek_OMEGAaccent", 0x7ab));
    v.push(def("Greek_accentdieresis", 0x7ae));
    v.push(def("Greek_horizbar", 0x7af));
    v.push(def("Greek_alphaaccent", 0x7b1));
    v.push(def("Greek_epsilonaccent", 0x7b2));
    v.push(def("Greek_etaaccent", 0x7b3));
    v.push(def("Greek_iotaaccent", 0x7b4));
    v.push(def("Greek_iotadieresis", 0x7b5));
    v.push(def("Greek_iotaaccentdieresis", 0x7b6));
    v.push(def("Greek_omicronaccent", 0x7b7));
    v.push(def("Greek_upsilonaccent", 0x7b8));
    v.push(def("Greek_upsilondieresis", 0x7b9));
    v.push(def("Greek_upsilonaccentdieresis", 0x7ba));
    v.push(def("Greek_omegaaccent", 0x7bb));
    v.push(def("Greek_ALPHA", 0x7c1));
    v.push(def("Greek_BETA", 0x7c2));
    v.push(def("Greek_GAMMA", 0x7c3));
    v.push(def("Greek_DELTA", 0x7c4));
    v.push(def("Greek_EPSILON", 0x7c5));
    v.push(def("Greek_ZETA", 0x7c6));
    v.push(def("Greek_ETA", 0x7c7));
    v.push(def("Greek_THETA", 0x7c8));
    v.push(def("Greek_IOTA", 0x7c9));
    v.push(def("Greek_KAPPA", 0x7ca));
    v.push(def("Greek_LAMDA", 0x7cb));
    v.push(def("Greek_LAMBDA", 0x7cb));
    v.push(def("Greek_MU", 0x7cc));
    v.push(def("Greek_NU", 0x7cd));
    v.push(def("Greek_XI", 0x7ce));
    v.push(def("Greek_OMICRON", 0x7cf));
    v.push(def("Greek_PI", 0x7d0));
    v.push(def("Greek_RHO", 0x7d1));
    v.push(def("Greek_SIGMA", 0x7d2));
    v.push(def("Greek_TAU", 0x7d4));
    v.push(def("Greek_UPSILON", 0x7d5));
    v.push(def("Greek_PHI", 0x7d6));
    v.push(def("Greek_CHI", 0x7d7));
    v.push(def("Greek_PSI", 0x7d8));
    v.push(def("Greek_OMEGA", 0x7d9));
    v.push(def("Greek_alpha", 0x7e1));
    v.push(def("Greek_beta", 0x7e2));
    v.push(def("Greek_gamma", 0x7e3));
    v.push(def("Greek_delta", 0x7e4));
    v.push(def("Greek_epsilon", 0x7e5));
    v.push(def("Greek_zeta", 0x7e6));
    v.push(def("Greek_eta", 0x7e7));
    v.push(def("Greek_theta", 0x7e8));
    v.push(def("Greek_iota", 0x7e9));
    v.push(def("Greek_kappa", 0x7ea));
    v.push(def("Greek_lamda", 0x7eb));
    v.push(def("Greek_lambda", 0x7eb));
    v.push(def("Greek_mu", 0x7ec));
    v.push(def("Greek_nu", 0x7ed));
    v.push(def("Greek_xi", 0x7ee));
    v.push(def("Greek_omicron", 0x7ef));
    v.push(def("Greek_pi", 0x7f0));
    v.push(def("Greek_rho", 0x7f1));
    v.push(def("Greek_sigma", 0x7f2));
    v.push(def("Greek_finalsmallsigma", 0x7f3));
    v.push(def("Greek_tau", 0x7f4));
    v.push(def("Greek_upsilon", 0x7f5));
    v.push(def("Greek_phi", 0x7f6));
    v.push(def("Greek_chi", 0x7f7));
    v.push(def("Greek_psi", 0x7f8));
    v.push(def("Greek_omega", 0x7f9));
    v.push(def("Greek_switch", 0xff7e));
}

/// Technical symbols.
fn defs_technical(v: &mut Vec<SymEntry>) {
    v.push(def("leftradical", 0x8a1));
    v.push(def("topleftradical", 0x8a2));
    v.push(def("horizconnector", 0x8a3));
    v.push(def("topintegral", 0x8a4));
    v.push(def("botintegral", 0x8a5));
    v.push(def("vertconnector", 0x8a6));
    v.push(def("topleftsqbracket", 0x8a7));
    v.push(def("botleftsqbracket", 0x8a8));
    v.push(def("toprightsqbracket", 0x8a9));
    v.push(def("botrightsqbracket", 0x8aa));
    v.push(def("topleftparens", 0x8ab));
    v.push(def("botleftparens", 0x8ac));
    v.push(def("toprightparens", 0x8ad));
    v.push(def("botrightparens", 0x8ae));
    v.push(def("leftmiddlecurlybrace", 0x8af));
    v.push(def("rightmiddlecurlybrace", 0x8b0));
    v.push(def("topleftsummation", 0x8b1));
    v.push(def("botleftsummation", 0x8b2));
    v.push(def("topvertsummationconnector", 0x8b3));
    v.push(def("botvertsummationconnector", 0x8b4));
    v.push(def("toprightsummation", 0x8b5));
    v.push(def("botrightsummation", 0x8b6));
    v.push(def("rightmiddlesummation", 0x8b7));
    v.push(def("lessthanequal", 0x8bc));
    v.push(def("notequal", 0x8bd));
    v.push(def("greaterthanequal", 0x8be));
    v.push(def("integral", 0x8bf));
    v.push(def("therefore", 0x8c0));
    v.push(def("variation", 0x8c1));
    v.push(def("infinity", 0x8c2));
    v.push(def("nabla", 0x8c5));
    v.push(def("approximate", 0x8c8));
    v.push(def("similarequal", 0x8c9));
    v.push(def("ifonlyif", 0x8cd));
    v.push(def("implies", 0x8ce));
    v.push(def("identical", 0x8cf));
    v.push(def("radical", 0x8d6));
    v.push(def("includedin", 0x8da));
    v.push(def("includes", 0x8db));
    v.push(def("intersection", 0x8dc));
    v.push(def("union", 0x8dd));
    v.push(def("logicaland", 0x8de));
    v.push(def("logicalor", 0x8df));
    v.push(def("partialderivative", 0x8ef));
    v.push(def("function", 0x8f6));
    v.push(def("leftarrow", 0x8fb));
    v.push(def("uparrow", 0x8fc));
    v.push(def("rightarrow", 0x8fd));
    v.push(def("downarrow", 0x8fe));
}

/// Special drawing symbols.
fn defs_special(v: &mut Vec<SymEntry>) {
    v.push(def("blank", 0x9df));
    v.push(def("soliddiamond", 0x9e0));
    v.push(def("checkerboard", 0x9e1));
    v.push(def("ht", 0x9e2));
    v.push(def("ff", 0x9e3));
    v.push(def("cr", 0x9e4));
    v.push(def("lf", 0x9e5));
    v.push(def("nl", 0x9e8));
    v.push(def("vt", 0x9e9));
    v.push(def("lowrightcorner", 0x9ea));
    v.push(def("uprightcorner", 0x9eb));
    v.push(def("upleftcorner", 0x9ec));
    v.push(def("lowleftcorner", 0x9ed));
    v.push(def("crossinglines", 0x9ee));
    v.push(def("horizlinescan1", 0x9ef));
    v.push(def("horizlinescan3", 0x9f0));
    v.push(def("horizlinescan5", 0x9f1));
    v.push(def("horizlinescan7", 0x9f2));
    v.push(def("horizlinescan9", 0x9f3));
    v.push(def("leftt", 0x9f4));
    v.push(def("rightt", 0x9f5));
    v.push(def("bott", 0x9f6));
    v.push(def("topt", 0x9f7));
    v.push(def("vertbar", 0x9f8));
}

/// Publishing symbols.
fn defs_publishing(v: &mut Vec<SymEntry>) {
    v.push(def("emspace", 0xaa1));
    v.push(def("enspace", 0xaa2));
    v.push(def("em3space", 0xaa3));
    v.push(def("em4space", 0xaa4));
    v.push(def("digitspace", 0xaa5));
    v.push(def("punctspace", 0xaa6));
    v.push(def("thinspace", 0xaa7));
    v.push(def("hairspace", 0xaa8));
    v.push(def("emdash", 0xaa9));
    v.push(def("endash", 0xaaa));
    v.push(def("signifblank", 0xaac));
    v.push(def("ellipsis", 0xaae));
    v.push(def("doubbaselinedot", 0xaaf));
    v.push(def("onethird", 0xab0));
    v.push(def("twothirds", 0xab1));
    v.push(def("onefifth", 0xab2));
    v.push(def("twofifths", 0xab3));
    v.push(def("threefifths", 0xab4));
    v.push(def("fourfifths", 0xab5));
    v.push(def("onesixth", 0xab6));
    v.push(def("fivesixths", 0xab7));
    v.push(def("careof", 0xab8));
    v.push(def("figdash", 0xabb));
    v.push(def("leftanglebracket", 0xabc));
    v.push(def("decimalpoint", 0xabd));
    v.push(def("rightanglebracket", 0xabe));
    v.push(def("marker", 0xabf));
    v.push(def("oneeighth", 0xac3));
    v.push(def("threeeighths", 0xac4));
    v.push(def("fiveeighths", 0xac5));
    v.push(def("seveneighths", 0xac6));
    v.push(def("trademark", 0xac9));
    v.push(def("signaturemark", 0xaca));
    v.push(def("trademarkincircle", 0xacb));
    v.push(def("leftopentriangle", 0xacc));
    v.push(def("rightopentriangle", 0xacd));
    v.push(def("emopencircle", 0xace));
    v.push(def("emopenrectangle", 0xacf));
    v.push(def("leftsinglequotemark", 0xad0));
    v.push(def("rightsinglequotemark", 0xad1));
    v.push(def("leftdoublequotemark", 0xad2));
    v.push(def("rightdoublequotemark", 0xad3));
    v.push(def("prescription", 0xad4));
    v.push(def("permille", 0xad5));
    v.push(def("minutes", 0xad6));
    v.push(def("seconds", 0xad7));
    v.push(def("latincross", 0xad9));
    v.push(def("hexagram", 0xada));
    v.push(def("filledrectbullet", 0xadb));
    v.push(def("filledlefttribullet", 0xadc));
    v.push(def("filledrighttribullet", 0xadd));
    v.push(def("emfilledcircle", 0xade));
    v.push(def("emfilledrect", 0xadf));
    v.push(def("enopencircbullet", 0xae0));
    v.push(def("enopensquarebullet", 0xae1));
    v.push(def("openrectbullet", 0xae2));
    v.push(def("opentribulletup", 0xae3));
    v.push(def("opentribulletdown", 0xae4));
    v.push(def("openstar", 0xae5));
    v.push(def("enfilledcircbullet", 0xae6));
    v.push(def("enfilledsqbullet", 0xae7));
    v.push(def("filledtribulletup", 0xae8));
    v.push(def("filledtribulletdown", 0xae9));
    v.push(def("leftpointer", 0xaea));
    v.push(def("rightpointer", 0xaeb));
    v.push(def("club", 0xaec));
    v.push(def("diamond", 0xaed));
    v.push(def("heart", 0xaee));
    v.push(def("maltesecross", 0xaf0));
    v.push(def("dagger", 0xaf1));
    v.push(def("doubledagger", 0xaf2));
    v.push(def("checkmark", 0xaf3));
    v.push(def("ballotcross", 0xaf4));
    v.push(def("musicalsharp", 0xaf5));
    v.push(def("musicalflat", 0xaf6));
    v.push(def("malesymbol", 0xaf7));
    v.push(def("femalesymbol", 0xaf8));
    v.push(def("telephone", 0xaf9));
    v.push(def("telephonerecorder", 0xafa));
    v.push(def("phonographcopyright", 0xafb));
    v.push(def("caret", 0xafc));
    v.push(def("singlelowquotemark", 0xafd));
    v.push(def("doublelowquotemark", 0xafe));
    v.push(def("cursor", 0xaff));
}

/// APL symbols.
fn defs_apl(v: &mut Vec<SymEntry>) {
    v.push(def("leftcaret", 0xba3));
    v.push(def("rightcaret", 0xba6));
    v.push(def("downcaret", 0xba8));
    v.push(def("upcaret", 0xba9));
    v.push(def("overbar", 0xbc0));
    v.push(def("downtack", 0xbc2));
    v.push(def("upshoe", 0xbc3));
    v.push(def("downstile", 0xbc4));
    v.push(def("underbar", 0xbc6));
    v.push(def("jot", 0xbca));
    v.push(def("quad", 0xbcc));
    v.push(def("uptack", 0xbce));
    v.push(def("circle", 0xbcf));
    v.push(def("upstile", 0xbd3));
    v.push(def("downshoe", 0xbd6));
    v.push(def("rightshoe", 0xbd8));
    v.push(def("leftshoe", 0xbda));
    v.push(def("lefttack", 0xbdc));
    v.push(def("righttack", 0xbfc));
}

/// Hebrew.
fn defs_hebrew(v: &mut Vec<SymEntry>) {
    v.push(def("hebrew_doublelowline", 0xcdf));
    v.push(def("hebrew_aleph", 0xce0));
    v.push(def("hebrew_bet", 0xce1));
    v.push(def("hebrew_beth", 0xce1));
    v.push(def("hebrew_gimel", 0xce2));
    v.push(def("hebrew_gimmel", 0xce2));
    v.push(def("hebrew_dalet", 0xce3));
    v.push(def("hebrew_daleth", 0xce3));
    v.push(def("hebrew_he", 0xce4));
    v.push(def("hebrew_waw", 0xce5));
    v.push(def("hebrew_zain", 0xce6));
    v.push(def("hebrew_zayin", 0xce6));
    v.push(def("hebrew_chet", 0xce7));
    v.push(def("hebrew_het", 0xce7));
    v.push(def("hebrew_tet", 0xce8));
    v.push(def("hebrew_teth", 0xce8));
    v.push(def("hebrew_yod", 0xce9));
    v.push(def("hebrew_finalkaph", 0xcea));
    v.push(def("hebrew_kaph", 0xceb));
    v.push(def("hebrew_lamed", 0xcec));
    v.push(def("hebrew_finalmem", 0xced));
    v.push(def("hebrew_mem", 0xcee));
    v.push(def("hebrew_finalnun", 0xcef));
    v.push(def("hebrew_nun", 0xcf0));
    v.push(def("hebrew_samech", 0xcf1));
    v.push(def("hebrew_samekh", 0xcf1));
    v.push(def("hebrew_ayin", 0xcf2));
    v.push(def("hebrew_finalpe", 0xcf3));
    v.push(def("hebrew_pe", 0xcf4));
    v.push(def("hebrew_finalzade", 0xcf5));
    v.push(def("hebrew_finalzadi", 0xcf5));
    v.push(def("hebrew_zade", 0xcf6));
    v.push(def("hebrew_zadi", 0xcf6));
    v.push(def("hebrew_qoph", 0xcf7));
    v.push(def("hebrew_kuf", 0xcf7));
    v.push(def("hebrew_resh", 0xcf8));
    v.push(def("hebrew_shin", 0xcf9));
    v.push(def("hebrew_taw", 0xcfa));
    v.push(def("hebrew_taf", 0xcfa));
    v.push(def("Hebrew_switch", 0xff7e));
}

/// Thai.
fn defs_thai(v: &mut Vec<SymEntry>) {
    v.push(def("Thai_kokai", 0xda1));
    v.push(def("Thai_khokhai", 0xda2));
    v.push(def("Thai_khokhuat", 0xda3));
    v.push(def("Thai_khokhwai", 0xda4));
    v.push(def("Thai_khokhon", 0xda5));
    v.push(def("Thai_khorakhang", 0xda6));
    v.push(def("Thai_ngongu", 0xda7));
    v.push(def("Thai_chochan", 0xda8));
    v.push(def("Thai_choching", 0xda9));
    v.push(def("Thai_chochang", 0xdaa));
    v.push(def("Thai_soso", 0xdab));
    v.push(def("Thai_chochoe", 0xdac));
    v.push(def("Thai_yoying", 0xdad));
    v.push(def("Thai_dochada", 0xdae));
    v.push(def("Thai_topatak", 0xdaf));
    v.push(def("Thai_thothan", 0xdb0));
    v.push(def("Thai_thonangmontho", 0xdb1));
    v.push(def("Thai_thophuthao", 0xdb2));
    v.push(def("Thai_nonen", 0xdb3));
    v.push(def("Thai_dodek", 0xdb4));
    v.push(def("Thai_totao", 0xdb5));
    v.push(def("Thai_thothung", 0xdb6));
    v.push(def("Thai_thothahan", 0xdb7));
    v.push(def("Thai_thothong", 0xdb8));
    v.push(def("Thai_nonu", 0xdb9));
    v.push(def("Thai_bobaimai", 0xdba));
    v.push(def("Thai_popla", 0xdbb));
    v.push(def("Thai_phophung", 0xdbc));
    v.push(def("Thai_fofa", 0xdbd));
    v.push(def("Thai_phophan", 0xdbe));
    v.push(def("Thai_fofan", 0xdbf));
    v.push(def("Thai_phosamphao", 0xdc0));
    v.push(def("Thai_moma", 0xdc1));
    v.push(def("Thai_yoyak", 0xdc2));
    v.push(def("Thai_rorua", 0xdc3));
    v.push(def("Thai_ru", 0xdc4));
    v.push(def("Thai_loling", 0xdc5));
    v.push(def("Thai_lu", 0xdc6));
    v.push(def("Thai_wowaen", 0xdc7));
    v.push(def("Thai_sosala", 0xdc8));
    v.push(def("Thai_sorusi", 0xdc9));
    v.push(def("Thai_sosua", 0xdca));
    v.push(def("Thai_hohip", 0xdcb));
    v.push(def("Thai_lochula", 0xdcc));
    v.push(def("Thai_oang", 0xdcd));
    v.push(def("Thai_honokhuk", 0xdce));
    v.push(def("Thai_paiyannoi", 0xdcf));
    v.push(def("Thai_saraa", 0xdd0));
    v.push(def("Thai_maihanakat", 0xdd1));
    v.push(def("Thai_saraaa", 0xdd2));
    v.push(def("Thai_saraam", 0xdd3));
    v.push(def("Thai_sarai", 0xdd4));
    v.push(def("Thai_saraii", 0xdd5));
    v.push(def("Thai_saraue", 0xdd6));
    v.push(def("Thai_sarauee", 0xdd7));
    v.push(def("Thai_sarau", 0xdd8));
    v.push(def("Thai_sarauu", 0xdd9));
    v.push(def("Thai_phinthu", 0xdda));
    v.push(def("Thai_maihanakat_maitho", 0xdde));
    v.push(def("Thai_baht", 0xddf));
    v.push(def("Thai_sarae", 0xde0));
    v.push(def("Thai_saraae", 0xde1));
    v.push(def("Thai_sarao", 0xde2));
    v.push(def("Thai_saraaimaimuan", 0xde3));
    v.push(def("Thai_saraaimaimalai", 0xde4));
    v.push(def("Thai_lakkhangyao", 0xde5));
    v.push(def("Thai_maiyamok", 0xde6));
    v.push(def("Thai_maitaikhu", 0xde7));
    v.push(def("Thai_maiek", 0xde8));
    v.push(def("Thai_maitho", 0xde9));
    v.push(def("Thai_maitri", 0xdea));
    v.push(def("Thai_maichattawa", 0xdeb));
    v.push(def("Thai_thanthakhat", 0xdec));
    v.push(def("Thai_nikhahit", 0xded));
    v.push(def("Thai_leksun", 0xdf0));
    v.push(def("Thai_leknung", 0xdf1));
    v.push(def("Thai_leksong", 0xdf2));
    v.push(def("Thai_leksam", 0xdf3));
    v.push(def("Thai_leksi", 0xdf4));
    v.push(def("Thai_lekha", 0xdf5));
    v.push(def("Thai_lekhok", 0xdf6));
    v.push(def("Thai_lekchet", 0xdf7));
    v.push(def("Thai_lekpaet", 0xdf8));
    v.push(def("Thai_lekkao", 0xdf9));
}

/// Korean.
fn defs_korean(v: &mut Vec<SymEntry>) {
    v.push(def("Hangul", 0xff31));
    v.push(def("Hangul_Start", 0xff32));
    v.push(def("Hangul_End", 0xff33));
    v.push(def("Hangul_Hanja", 0xff34));
    v.push(def("Hangul_Jamo", 0xff35));
    v.push(def("Hangul_Romaja", 0xff36));
    v.push(def("Hangul_Codeinput", 0xff37));
    v.push(def("Hangul_Jeonja", 0xff38));
    v.push(def("Hangul_Banja", 0xff39));
    v.push(def("Hangul_PreHanja", 0xff3a));
    v.push(def("Hangul_PostHanja", 0xff3b));
    v.push(def("Hangul_SingleCandidate", 0xff3c));
    v.push(def("Hangul_MultipleCandidate", 0xff3d));
    v.push(def("Hangul_PreviousCandidate", 0xff3e));
    v.push(def("Hangul_Special", 0xff3f));
    v.push(def("Hangul_switch", 0xff7e));
    v.push(def("Hangul_Kiyeog", 0xea1));
    v.push(def("Hangul_SsangKiyeog", 0xea2));
    v.push(def("Hangul_KiyeogSios", 0xea3));
    v.push(def("Hangul_Nieun", 0xea4));
    v.push(def("Hangul_NieunJieuj", 0xea5));
    v.push(def("Hangul_NieunHieuh", 0xea6));
    v.push(def("Hangul_Dikeud", 0xea7));
    v.push(def("Hangul_SsangDikeud", 0xea8));
    v.push(def("Hangul_Rieul", 0xea9));
    v.push(def("Hangul_RieulKiyeog", 0xeaa));
    v.push(def("Hangul_RieulMieum", 0xeab));
    v.push(def("Hangul_RieulPieub", 0xeac));
    v.push(def("Hangul_RieulSios", 0xead));
    v.push(def("Hangul_RieulTieut", 0xeae));
    v.push(def("Hangul_RieulPhieuf", 0xeaf));
    v.push(def("Hangul_RieulHieuh", 0xeb0));
    v.push(def("Hangul_Mieum", 0xeb1));
    v.push(def("Hangul_Pieub", 0xeb2));
    v.push(def("Hangul_SsangPieub", 0xeb3));
    v.push(def("Hangul_PieubSios", 0xeb4));
    v.push(def("Hangul_Sios", 0xeb5));
    v.push(def("Hangul_SsangSios", 0xeb6));
    v.push(def("Hangul_Ieung", 0xeb7));
    v.push(def("Hangul_Jieuj", 0xeb8));
    v.push(def("Hangul_SsangJieuj", 0xeb9));
    v.push(def("Hangul_Cieuc", 0xeba));
    v.push(def("Hangul_Khieuq", 0xebb));
    v.push(def("Hangul_Tieut", 0xebc));
    v.push(def("Hangul_Phieuf", 0xebd));
    v.push(def("Hangul_Hieuh", 0xebe));
    v.push(def("Hangul_A", 0xebf));
    v.push(def("Hangul_AE", 0xec0));
    v.push(def("Hangul_YA", 0xec1));
    v.push(def("Hangul_YAE", 0xec2));
    v.push(def("Hangul_EO", 0xec3));
    v.push(def("Hangul_E", 0xec4));
    v.push(def("Hangul_YEO", 0xec5));
    v.push(def("Hangul_YE", 0xec6));
    v.push(def("Hangul_O", 0xec7));
    v.push(def("Hangul_WA", 0xec8));
    v.push(def("Hangul_WAE", 0xec9));
    v.push(def("Hangul_OE", 0xeca));
    v.push(def("Hangul_YO", 0xecb));
    v.push(def("Hangul_U", 0xecc));
    v.push(def("Hangul_WEO", 0xecd));
    v.push(def("Hangul_WE", 0xece));
    v.push(def("Hangul_WI", 0xecf));
    v.push(def("Hangul_YU", 0xed0));
    v.push(def("Hangul_EU", 0xed1));
    v.push(def("Hangul_YI", 0xed2));
    v.push(def("Hangul_I", 0xed3));
    v.push(def("Hangul_J_Kiyeog", 0xed4));
    v.push(def("Hangul_J_SsangKiyeog", 0xed5));
    v.push(def("Hangul_J_KiyeogSios", 0xed6));
    v.push(def("Hangul_J_Nieun", 0xed7));
    v.push(def("Hangul_J_NieunJieuj", 0xed8));
    v.push(def("Hangul_J_NieunHieuh", 0xed9));
    v.push(def("Hangul_J_Dikeud", 0xeda));
    v.push(def("Hangul_J_Rieul", 0xedb));
    v.push(def("Hangul_J_RieulKiyeog", 0xedc));
    v.push(def("Hangul_J_RieulMieum", 0xedd));
    v.push(def("Hangul_J_RieulPieub", 0xede));
    v.push(def("Hangul_J_RieulSios", 0xedf));
    v.push(def("Hangul_J_RieulTieut", 0xee0));
    v.push(def("Hangul_J_RieulPhieuf", 0xee1));
    v.push(def("Hangul_J_RieulHieuh", 0xee2));
    v.push(def("Hangul_J_Mieum", 0xee3));
    v.push(def("Hangul_J_Pieub", 0xee4));
    v.push(def("Hangul_J_PieubSios", 0xee5));
    v.push(def("Hangul_J_Sios", 0xee6));
    v.push(def("Hangul_J_SsangSios", 0xee7));
    v.push(def("Hangul_J_Ieung", 0xee8));
    v.push(def("Hangul_J_Jieuj", 0xee9));
    v.push(def("Hangul_J_Cieuc", 0xeea));
    v.push(def("Hangul_J_Khieuq", 0xeeb));
    v.push(def("Hangul_J_Tieut", 0xeec));
    v.push(def("Hangul_J_Phieuf", 0xeed));
    v.push(def("Hangul_J_Hieuh", 0xeee));
    v.push(def("Hangul_RieulYeorinHieuh", 0xeef));
    v.push(def("Hangul_SunkyeongeumMieum", 0xef0));
    v.push(def("Hangul_SunkyeongeumPieub", 0xef1));
    v.push(def("Hangul_PanSios", 0xef2));
    v.push(def("Hangul_KkogjiDalrinIeung", 0xef3));
    v.push(def("Hangul_SunkyeongeumPhieuf", 0xef4));
    v.push(def("Hangul_YeorinHieuh", 0xef5));
    v.push(def("Hangul_AraeA", 0xef6));
    v.push(def("Hangul_AraeAE", 0xef7));
    v.push(def("Hangul_J_PanSios", 0xef8));
    v.push(def("Hangul_J_KkogjiDalrinIeung", 0xef9));
    v.push(def("Hangul_J_YeorinHieuh", 0xefa));
    v.push(def("Korean_Won", 0xeff));
}

/// Armenian.
fn defs_armenian(v: &mut Vec<SymEntry>) {
    v.push(def("Armenian_ligature_ew", 0x1000587));
    v.push(def("Armenian_full_stop", 0x1000589));
    v.push(def("Armenian_verjaket", 0x1000589));
    v.push(def("Armenian_separation_mark", 0x100055d));
    v.push(def("Armenian_but", 0x100055d));
    v.push(def("Armenian_hyphen", 0x100058a));
    v.push(def("Armenian_yentamna", 0x100058a));
    v.push(def("Armenian_exclam", 0x100055c));
    v.push(def("Armenian_amanak", 0x100055c));
    v.push(def("Armenian_accent", 0x100055b));
    v.push(def("Armenian_shesht", 0x100055b));
    v.push(def("Armenian_question", 0x100055e));
    v.push(def("Armenian_paruyk", 0x100055e));
    v.push(def("Armenian_AYB", 0x1000531));
    v.push(def("Armenian_ayb", 0x1000561));
    v.push(def("Armenian_BEN", 0x1000532));
    v.push(def("Armenian_ben", 0x1000562));
    v.push(def("Armenian_GIM", 0x1000533));
    v.push(def("Armenian_gim", 0x1000563));
    v.push(def("Armenian_DA", 0x1000534));
    v.push(def("Armenian_da", 0x1000564));
    v.push(def("Armenian_YECH", 0x1000535));
    v.push(def("Armenian_yech", 0x1000565));
    v.push(def("Armenian_ZA", 0x1000536));
    v.push(def("Armenian_za", 0x1000566));
    v.push(def("Armenian_E", 0x1000537));
    v.push(def("Armenian_e", 0x1000567));
    v.push(def("Armenian_AT", 0x1000538));
    v.push(def("Armenian_at", 0x1000568));
    v.push(def("Armenian_TO", 0x1000539));
    v.push(def("Armenian_to", 0x1000569));
    v.push(def("Armenian_ZHE", 0x100053a));
    v.push(def("Armenian_zhe", 0x100056a));
    v.push(def("Armenian_INI", 0x100053b));
    v.push(def("Armenian_ini", 0x100056b));
    v.push(def("Armenian_LYUN", 0x100053c));
    v.push(def("Armenian_lyun", 0x100056c));
    v.push(def("Armenian_KHE", 0x100053d));
    v.push(def("Armenian_khe", 0x100056d));
    v.push(def("Armenian_TSA", 0x100053e));
    v.push(def("Armenian_tsa", 0x100056e));
    v.push(def("Armenian_KEN", 0x100053f));
    v.push(def("Armenian_ken", 0x100056f));
    v.push(def("Armenian_HO", 0x1000540));
    v.push(def("Armenian_ho", 0x1000570));
    v.push(def("Armenian_DZA", 0x1000541));
    v.push(def("Armenian_dza", 0x1000571));
    v.push(def("Armenian_GHAT", 0x1000542));
    v.push(def("Armenian_ghat", 0x1000572));
    v.push(def("Armenian_TCHE", 0x1000543));
    v.push(def("Armenian_tche", 0x1000573));
    v.push(def("Armenian_MEN", 0x1000544));
    v.push(def("Armenian_men", 0x1000574));
    v.push(def("Armenian_HI", 0x1000545));
    v.push(def("Armenian_hi", 0x1000575));
    v.push(def("Armenian_NU", 0x1000546));
    v.push(def("Armenian_nu", 0x1000576));
    v.push(def("Armenian_SHA", 0x1000547));
    v.push(def("Armenian_sha", 0x1000577));
    v.push(def("Armenian_VO", 0x1000548));
    v.push(def("Armenian_vo", 0x1000578));
    v.push(def("Armenian_CHA", 0x1000549));
    v.push(def("Armenian_cha", 0x1000579));
    v.push(def("Armenian_PE", 0x100054a));
    v.push(def("Armenian_pe", 0x100057a));
    v.push(def("Armenian_JE", 0x100054b));
    v.push(def("Armenian_je", 0x100057b));
    v.push(def("Armenian_RA", 0x100054c));
    v.push(def("Armenian_ra", 0x100057c));
    v.push(def("Armenian_SE", 0x100054d));
    v.push(def("Armenian_se", 0x100057d));
    v.push(def("Armenian_VEV", 0x100054e));
    v.push(def("Armenian_vev", 0x100057e));
    v.push(def("Armenian_TYUN", 0x100054f));
    v.push(def("Armenian_tyun", 0x100057f));
    v.push(def("Armenian_RE", 0x1000550));
    v.push(def("Armenian_re", 0x1000580));
    v.push(def("Armenian_TSO", 0x1000551));
    v.push(def("Armenian_tso", 0x1000581));
    v.push(def("Armenian_VYUN", 0x1000552));
    v.push(def("Armenian_vyun", 0x1000582));
    v.push(def("Armenian_PYUR", 0x1000553));
    v.push(def("Armenian_pyur", 0x1000583));
    v.push(def("Armenian_KE", 0x1000554));
    v.push(def("Armenian_ke", 0x1000584));
    v.push(def("Armenian_O", 0x1000555));
    v.push(def("Armenian_o", 0x1000585));
    v.push(def("Armenian_FE", 0x1000556));
    v.push(def("Armenian_fe", 0x1000586));
    v.push(def("Armenian_apostrophe", 0x100055a));
}

/// Georgian.
fn defs_georgian(v: &mut Vec<SymEntry>) {
    v.push(def("Georgian_an", 0x10010d0));
    v.push(def("Georgian_ban", 0x10010d1));
    v.push(def("Georgian_gan", 0x10010d2));
    v.push(def("Georgian_don", 0x10010d3));
    v.push(def("Georgian_en", 0x10010d4));
    v.push(def("Georgian_vin", 0x10010d5));
    v.push(def("Georgian_zen", 0x10010d6));
    v.push(def("Georgian_tan", 0x10010d7));
    v.push(def("Georgian_in", 0x10010d8));
    v.push(def("Georgian_kan", 0x10010d9));
    v.push(def("Georgian_las", 0x10010da));
    v.push(def("Georgian_man", 0x10010db));
    v.push(def("Georgian_nar", 0x10010dc));
    v.push(def("Georgian_on", 0x10010dd));
    v.push(def("Georgian_par", 0x10010de));
    v.push(def("Georgian_zhar", 0x10010df));
    v.push(def("Georgian_rae", 0x10010e0));
    v.push(def("Georgian_san", 0x10010e1));
    v.push(def("Georgian_tar", 0x10010e2));
    v.push(def("Georgian_un", 0x10010e3));
    v.push(def("Georgian_phar", 0x10010e4));
    v.push(def("Georgian_khar", 0x10010e5));
    v.push(def("Georgian_ghan", 0x10010e6));
    v.push(def("Georgian_qar", 0x10010e7));
    v.push(def("Georgian_shin", 0x10010e8));
    v.push(def("Georgian_chin", 0x10010e9));
    v.push(def("Georgian_can", 0x10010ea));
    v.push(def("Georgian_jil", 0x10010eb));
    v.push(def("Georgian_cil", 0x10010ec));
    v.push(def("Georgian_char", 0x10010ed));
    v.push(def("Georgian_xan", 0x10010ee));
    v.push(def("Georgian_jhan", 0x10010ef));
    v.push(def("Georgian_hae", 0x10010f0));
    v.push(def("Georgian_he", 0x10010f1));
    v.push(def("Georgian_hie", 0x10010f2));
    v.push(def("Georgian_we", 0x10010f3));
    v.push(def("Georgian_har", 0x10010f4));
    v.push(def("Georgian_hoe", 0x10010f5));
    v.push(def("Georgian_fi", 0x10010f6));
}

/// Azeri and other Caucasus letters.
fn defs_caucasus(v: &mut Vec<SymEntry>) {
    v.push(def("Xabovedot", 0x1001e8a));
    v.push(def("Ibreve", 0x100012c));
    v.push(def("Zstroke", 0x10001b5));
    v.push(def("Gcaron", 0x10001e6));
    v.push(def("Ocaron", 0x10001d1));
    v.push(def("Obarred", 0x100019f));
    v.push(def("xabovedot", 0x1001e8b));
    v.push(def("ibreve", 0x100012d));
    v.push(def("zstroke", 0x10001b6));
    v.push(def("gcaron", 0x10001e7));
    v.push(def("ocaron", 0x10001d2));
    v.push(def("obarred", 0x1000275));
    v.push(def("SCHWA", 0x100018f));
    v.push(def("schwa", 0x1000259));
    v.push(def("EZH", 0x10001b7));
    v.push(def("ezh", 0x1000292));
    v.push(def("Lbelowdot", 0x1001e36));
    v.push(def("lbelowdot", 0x1001e37));
}

/// Vietnamese.
fn defs_vietnamese(v: &mut Vec<SymEntry>) {
    v.push(def("Abelowdot", 0x1001ea0));
    v.push(def("abelowdot", 0x1001ea1));
    v.push(def("Ahook", 0x1001ea2));
    v.push(def("ahook", 0x1001ea3));
    v.push(def("Acircumflexacute", 0x1001ea4));
    v.push(def("acircumflexacute", 0x1001ea5));
    v.push(def("Acircumflexgrave", 0x1001ea6));
    v.push(def("acircumflexgrave", 0x1001ea7));
    v.push(def("Acircumflexhook", 0x1001ea8));
    v.push(def("acircumflexhook", 0x1001ea9));
    v.push(def("Acircumflextilde", 0x1001eaa));
    v.push(def("acircumflextilde", 0x1001eab));
    v.push(def("Acircumflexbelowdot", 0x1001eac));
    v.push(def("acircumflexbelowdot", 0x1001ead));
    v.push(def("Abreveacute", 0x1001eae));
    v.push(def("abreveacute", 0x1001eaf));
    v.push(def("Abrevegrave", 0x1001eb0));
    v.push(def("abrevegrave", 0x1001eb1));
    v.push(def("Abrevehook", 0x1001eb2));
    v.push(def("abrevehook", 0x1001eb3));
    v.push(def("Abrevetilde", 0x1001eb4));
    v.push(def("abrevetilde", 0x1001eb5));
    v.push(def("Abrevebelowdot", 0x1001eb6));
    v.push(def("abrevebelowdot", 0x1001eb7));
    v.push(def("Ebelowdot", 0x1001eb8));
    v.push(def("ebelowdot", 0x1001eb9));
    v.push(def("Ehook", 0x1001eba));
    v.push(def("ehook", 0x1001ebb));
    v.push(def("Etilde", 0x1001ebc));
    v.push(def("etilde", 0x1001ebd));
    v.push(def("Ecircumflexacute", 0x1001ebe));
    v.push(def("ecircumflexacute", 0x1001ebf));
    v.push(def("Ecircumflexgrave", 0x1001ec0));
    v.push(def("ecircumflexgrave", 0x1001ec1));
    v.push(def("Ecircumflexhook", 0x1001ec2));
    v.push(def("ecircumflexhook", 0x1001ec3));
    v.push(def("Ecircumflextilde", 0x1001ec4));
    v.push(def("ecircumflextilde", 0x1001ec5));
    v.push(def("Ecircumflexbelowdot", 0x1001ec6));
    v.push(def("ecircumflexbelowdot", 0x1001ec7));
    v.push(def("Ihook", 0x1001ec8));
    v.push(def("ihook", 0x1001ec9));
    v.push(def("Ibelowdot", 0x1001eca));
    v.push(def("ibelowdot", 0x1001ecb));
    v.push(def("Obelowdot", 0x1001ecc));
    v.push(def("obelowdot", 0x1001ecd));
    v.push(def("Ohook", 0x1001ece));
    v.push(def("ohook", 0x1001ecf));
    v.push(def("Ocircumflexacute", 0x1001ed0));
    v.push(def("ocircumflexacute", 0x1001ed1));
    v.push(def("Ocircumflexgrave", 0x1001ed2));
    v.push(def("ocircumflexgrave", 0x1001ed3));
    v.push(def("Ocircumflexhook", 0x1001ed4));
    v.push(def("ocircumflexhook", 0x1001ed5));
    v.push(def("Ocircumflextilde", 0x1001ed6));
    v.push(def("ocircumflextilde", 0x1001ed7));
    v.push(def("Ocircumflexbelowdot", 0x1001ed8));
    v.push(def("ocircumflexbelowdot", 0x1001ed9));
    v.push(def("Ohornacute", 0x1001eda));
    v.push(def("ohornacute", 0x1001edb));
    v.push(def("Ohorngrave", 0x1001edc));
    v.push(def("ohorngrave", 0x1001edd));
    v.push(def("Ohornhook", 0x1001ede));
    v.push(def("ohornhook", 0x1001edf));
    v.push(def("Ohorntilde", 0x1001ee0));
    v.push(def("ohorntilde", 0x1001ee1));
    v.push(def("Ohornbelowdot", 0x1001ee2));
    v.push(def("ohornbelowdot", 0x1001ee3));
    v.push(def("Ubelowdot", 0x1001ee4));
    v.push(def("ubelowdot", 0x1001ee5));
    v.push(def("Uhook", 0x1001ee6));
    v.push(def("uhook", 0x1001ee7));
    v.push(def("Uhornacute", 0x1001ee8));
    v.push(def("uhornacute", 0x1001ee9));
    v.push(def("Uhorngrave", 0x1001eea));
    v.push(def("uhorngrave", 0x1001eeb));
    v.push(def("Uhornhook", 0x1001eec));
    v.push(def("uhornhook", 0x1001eed));
    v.push(def("Uhorntilde", 0x1001eee));
    v.push(def("uhorntilde", 0x1001eef));
    v.push(def("Uhornbelowdot", 0x1001ef0));
    v.push(def("uhornbelowdot", 0x1001ef1));
    v.push(def("Ybelowdot", 0x1001ef4));
    v.push(def("ybelowdot", 0x1001ef5));
    v.push(def("Yhook", 0x1001ef6));
    v.push(def("yhook", 0x1001ef7));
    v.push(def("Ytilde", 0x1001ef8));
    v.push(def("ytilde", 0x1001ef9));
    v.push(def("Ohorn", 0x10001a0));
    v.push(def("ohorn", 0x10001a1));
    v.push(def("Uhorn", 0x10001af));
    v.push(def("uhorn", 0x10001b0));
    v.push(def("combining_tilde", 0x1000303));
    v.push(def("combining_grave", 0x1000300));
    v.push(def("combining_acute", 0x1000301));
    v.push(def("combining_hook", 0x1000309));
    v.push(def("combining_belowdot", 0x1000323));
}

/// Currency signs.
fn defs_currency(v: &mut Vec<SymEntry>) {
    v.push(def("EcuSign", 0x10020a0));
    v.push(def("ColonSign", 0x10020a1));
    v.push(def("CruzeiroSign", 0x10020a2));
    v.push(def("FFrancSign", 0x10020a3));
    v.push(def("LiraSign", 0x10020a4));
    v.push(def("MillSign", 0x10020a5));
    v.push(def("NairaSign", 0x10020a6));
    v.push(def("PesetaSign", 0x10020a7));
    v.push(def("RupeeSign", 0x10020a8));
    v.push(def("WonSign", 0x10020a9));
    v.push(def("NewSheqelSign", 0x10020aa));
    v.push(def("DongSign", 0x10020ab));
    v.push(def("EuroSign", 0x20ac));
}

/// Mathematical signs.
fn defs_mathematical(v: &mut Vec<SymEntry>) {
    v.push(def("zerosuperior", 0x1002070));
    v.push(def("foursuperior", 0x1002074));
    v.push(def("fivesuperior", 0x1002075));
    v.push(def("sixsuperior", 0x1002076));
    v.push(def("sevensuperior", 0x1002077));
    v.push(def("eightsuperior", 0x1002078));
    v.push(def("ninesuperior", 0x1002079));
    v.push(def("zerosubscript", 0x1002080));
    v.push(def("onesubscript", 0x1002081));
    v.push(def("twosubscript", 0x1002082));
    v.push(def("threesubscript", 0x1002083));
    v.push(def("foursubscript", 0x1002084));
    v.push(def("fivesubscript", 0x1002085));
    v.push(def("sixsubscript", 0x1002086));
    v.push(def("sevensubscript", 0x1002087));
    v.push(def("eightsubscript", 0x1002088));
    v.push(def("ninesubscript", 0x1002089));
    v.push(def("partdifferential", 0x1002202));
    v.push(def("emptyset", 0x1002205));
    v.push(def("elementof", 0x1002208));
    v.push(def("notelementof", 0x1002209));
    v.push(def("because", 0x1002235));
    v.push(def("approxeq", 0x1002248));
    v.push(def("notapproxeq", 0x1002247));
    v.push(def("notidentical", 0x1002262));
    v.push(def("stricteq", 0x1002263));
}

/// Braille patterns.
fn defs_braille(v: &mut Vec<SymEntry>) {
    v.push(def("braille_dot_1", 0xfff1));
    v.push(def("braille_dot_2", 0xfff2));
    v.push(def("braille_dot_3", 0xfff3));
    v.push(def("braille_dot_4", 0xfff4));
    v.push(def("braille_dot_5", 0xfff5));
    v.push(def("braille_dot_6", 0xfff6));
    v.push(def("braille_dot_7", 0xfff7));
    v.push(def("braille_dot_8", 0xfff8));
    v.push(def("braille_dot_9", 0xfff9));
    v.push(def("braille_dot_10", 0xfffa));
    v.push(def("braille_blank", 0x1002800));
    v.push(def("braille_dots_1", 0x1002801));
    v.push(def("braille_dots_2", 0x1002802));
    v.push(def("braille_dots_12", 0x1002803));
    v.push(def("braille_dots_3", 0x1002804));
    v.push(def("braille_dots_13", 0x1002805));
    v.push(def("braille_dots_23", 0x1002806));
    v.push(def("braille_dots_123", 0x1002807));
    v.push(def("braille_dots_4", 0x1002808));
    v.push(def("braille_dots_14", 0x1002809));
    v.push(def("braille_dots_24", 0x100280a));
    v.push(def("braille_dots_124", 0x100280b));
    v.push(def("braille_dots_34", 0x100280c));
    v.push(def("braille_dots_134", 0x100280d));
    v.push(def("braille_dots_234", 0x100280e));
    v.push(def("braille_dots_1234", 0x100280f));
    v.push(def("braille_dots_5", 0x1002810));
    v.push(def("braille_dots_15", 0x1002811));
    v.push(def("braille_dots_25", 0x1002812));
    v.push(def("braille_dots_125", 0x1002813));
    v.push(def("braille_dots_35", 0x1002814));
    v.push(def("braille_dots_135", 0x1002815));
    v.push(def("braille_dots_235", 0x1002816));
    v.push(def("braille_dots_1235", 0x1002817));
    v.push(def("braille_dots_45", 0x1002818));
    v.push(def("braille_dots_145", 0x1002819));
    v.push(def("braille_dots_245", 0x100281a));
    v.push(def("braille_dots_1245", 0x100281b));
    v.push(def("braille_dots_345", 0x100281c));
    v.push(def("braille_dots_1345", 0x100281d));
    v.push(def("braille_dots_2345", 0x100281e));
    v.push(def("braille_dots_12345", 0x100281f));
    v.push(def("braille_dots_6", 0x1002820));
    v.push(def("braille_dots_16", 0x1002821));
    v.push(def("braille_dots_26", 0x1002822));
    v.push(def("braille_dots_126", 0x1002823));
    v.push(def("braille_dots_36", 0x1002824));
    v.push(def("braille_dots_136", 0x1002825));
    v.push(def("braille_dots_236", 0x1002826));
    v.push(def("braille_dots_1236", 0x1002827));
    v.push(def("braille_dots_46", 0x1002828));
    v.push(def("braille_dots_146", 0x1002829));
    v.push(def("braille_dots_246", 0x100282a));
    v.push(def("braille_dots_1246", 0x100282b));
    v.push(def("braille_dots_346", 0x100282c));
    v.push(def("braille_dots_1346", 0x100282d));
    v.push(def("braille_dots_2346", 0x100282e));
    v.push(def("braille_dots_12346", 0x100282f));
    v.push(def("braille_dots_56", 0x1002830));
    v.push(def("braille_dots_156", 0x1002831));
    v.push(def("braille_dots_256", 0x1002832));
    v.push(def("braille_dots_1256", 0x1002833));
    v.push(def("braille_dots_356", 0x1002834));
    v.push(def("braille_dots_1356", 0x1002835));
    v.push(def("braille_dots_2356", 0x1002836));
    v.push(def("braille_dots_12356", 0x1002837));
    v.push(def("braille_dots_456", 0x1002838));
    v.push(def("braille_dots_1456", 0x1002839));
    v.push(def("braille_dots_2456", 0x100283a));
    v.push(def("braille_dots_12456", 0x100283b));
    v.push(def("braille_dots_3456", 0x100283c));
    v.push(def("braille_dots_13456", 0x100283d));
    v.push(def("braille_dots_23456", 0x100283e));
    v.push(def("braille_dots_123456", 0x100283f));
    v.push(def("braille_dots_7", 0x1002840));
    v.push(def("braille_dots_17", 0x1002841));
    v.push(def("braille_dots_27", 0x1002842));
    v.push(def("braille_dots_127", 0x1002843));
    v.push(def("braille_dots_37", 0x1002844));
    v.push(def("braille_dots_137", 0x1002845));
    v.push(def("braille_dots_237", 0x1002846));
    v.push(def("braille_dots_1237", 0x1002847));
    v.push(def("braille_dots_47", 0x1002848));
    v.push(def("braille_dots_147", 0x1002849));
    v.push(def("braille_dots_247", 0x100284a));
    v.push(def("braille_dots_1247", 0x100284b));
    v.push(def("braille_dots_347", 0x100284c));
    v.push(def("braille_dots_1347", 0x100284d));
    v.push(def("braille_dots_2347", 0x100284e));
    v.push(def("braille_dots_12347", 0x100284f));
    v.push(def("braille_dots_57", 0x1002850));
    v.push(def("braille_dots_157", 0x1002851));
    v.push(def("braille_dots_257", 0x1002852));
    v.push(def("braille_dots_1257", 0x1002853));
    v.push(def("braille_dots_357", 0x1002854));
    v.push(def("braille_dots_1357", 0x1002855));
    v.push(def("braille_dots_2357", 0x1002856));
    v.push(def("braille_dots_12357", 0x1002857));
    v.push(def("braille_dots_457", 0x1002858));
    v.push(def("braille_dots_1457", 0x1002859));
    v.push(def("braille_dots_2457", 0x100285a));
    v.push(def("braille_dots_12457", 0x100285b));
    v.push(def("braille_dots_3457", 0x100285c));
    v.push(def("braille_dots_13457", 0x100285d));
    v.push(def("braille_dots_23457", 0x100285e));
    v.push(def("braille_dots_123457", 0x100285f));
    v.push(def("braille_dots_67", 0x1002860));
    v.push(def("braille_dots_167", 0x1002861));
    v.push(def("braille_dots_267", 0x1002862));
    v.push(def("braille_dots_1267", 0x1002863));
    v.push(def("braille_dots_367", 0x1002864));
    v.push(def("braille_dots_1367", 0x1002865));
    v.push(def("braille_dots_2367", 0x1002866));
    v.push(def("braille_dots_12367", 0x1002867));
    v.push(def("braille_dots_467", 0x1002868));
    v.push(def("braille_dots_1467", 0x1002869));
    v.push(def("braille_dots_2467", 0x100286a));
    v.push(def("braille_dots_12467", 0x100286b));
    v.push(def("braille_dots_3467", 0x100286c));
    v.push(def("braille_dots_13467", 0x100286d));
    v.push(def("braille_dots_23467", 0x100286e));
    v.push(def("braille_dots_123467", 0x100286f));
    v.push(def("braille_dots_567", 0x1002870));
    v.push(def("braille_dots_1567", 0x1002871));
    v.push(def("braille_dots_2567", 0x1002872));
    v.push(def("braille_dots_12567", 0x1002873));
    v.push(def("braille_dots_3567", 0x1002874));
    v.push(def("braille_dots_13567", 0x1002875));
    v.push(def("braille_dots_23567", 0x1002876));
    v.push(def("braille_dots_123567", 0x1002877));
    v.push(def("braille_dots_4567", 0x1002878));
    v.push(def("braille_dots_14567", 0x1002879));
    v.push(def("braille_dots_24567", 0x100287a));
    v.push(def("braille_dots_124567", 0x100287b));
    v.push(def("braille_dots_34567", 0x100287c));
    v.push(def("braille_dots_134567", 0x100287d));
    v.push(def("braille_dots_234567", 0x100287e));
    v.push(def("braille_dots_1234567", 0x100287f));
    v.push(def("braille_dots_8", 0x1002880));
    v.push(def("braille_dots_18", 0x1002881));
    v.push(def("braille_dots_28", 0x1002882));
    v.push(def("braille_dots_128", 0x1002883));
    v.push(def("braille_dots_38", 0x1002884));
    v.push(def("braille_dots_138", 0x1002885));
    v.push(def("braille_dots_238", 0x1002886));
    v.push(def("braille_dots_1238", 0x1002887));
    v.push(def("braille_dots_48", 0x1002888));
    v.push(def("braille_dots_148", 0x1002889));
    v.push(def("braille_dots_248", 0x100288a));
    v.push(def("braille_dots_1248", 0x100288b));
    v.push(def("braille_dots_348", 0x100288c));
    v.push(def("braille_dots_1348", 0x100288d));
    v.push(def("braille_dots_2348", 0x100288e));
    v.push(def("braille_dots_12348", 0x100288f));
    v.push(def("braille_dots_58", 0x1002890));
    v.push(def("braille_dots_158", 0x1002891));
    v.push(def("braille_dots_258", 0x1002892));
    v.push(def("braille_dots_1258", 0x1002893));
    v.push(def("braille_dots_358", 0x1002894));
    v.push(def("braille_dots_1358", 0x1002895));
    v.push(def("braille_dots_2358", 0x1002896));
    v.push(def("braille_dots_12358", 0x1002897));
    v.push(def("braille_dots_458", 0x1002898));
    v.push(def("braille_dots_1458", 0x1002899));
    v.push(def("braille_dots_2458", 0x100289a));
    v.push(def("braille_dots_12458", 0x100289b));
    v.push(def("braille_dots_3458", 0x100289c));
    v.push(def("braille_dots_13458", 0x100289d));
    v.push(def("braille_dots_23458", 0x100289e));
    v.push(def("braille_dots_123458", 0x100289f));
    v.push(def("braille_dots_68", 0x10028a0));
    v.push(def("braille_dots_168", 0x10028a1));
    v.push(def("braille_dots_268", 0x10028a2));
    v.push(def("braille_dots_1268", 0x10028a3));
    v.push(def("braille_dots_368", 0x10028a4));
    v.push(def("braille_dots_1368", 0x10028a5));
    v.push(def("braille_dots_2368", 0x10028a6));
    v.push(def("braille_dots_12368", 0x10028a7));
    v.push(def("braille_dots_468", 0x10028a8));
    v.push(def("braille_dots_1468", 0x10028a9));
    v.push(def("braille_dots_2468", 0x10028aa));
    v.push(def("braille_dots_12468", 0x10028ab));
    v.push(def("braille_dots_3468", 0x10028ac));
    v.push(def("braille_dots_13468", 0x10028ad));
    v.push(def("braille_dots_23468", 0x10028ae));
    v.push(def("braille_dots_123468", 0x10028af));
    v.push(def("braille_dots_568", 0x10028b0));
    v.push(def("braille_dots_1568", 0x10028b1));
    v.push(def("braille_dots_2568", 0x10028b2));
    v.push(def("braille_dots_12568", 0x10028b3));
    v.push(def("braille_dots_3568", 0x10028b4));
    v.push(def("braille_dots_13568", 0x10028b5));
    v.push(def("braille_dots_23568", 0x10028b6));
    v.push(def("braille_dots_123568", 0x10028b7));
    v.push(def("braille_dots_4568", 0x10028b8));
    v.push(def("braille_dots_14568", 0x10028b9));
    v.push(def("braille_dots_24568", 0x10028ba));
    v.push(def("braille_dots_124568", 0x10028bb));
    v.push(def("braille_dots_34568", 0x10028bc));
    v.push(def("braille_dots_134568", 0x10028bd));
    v.push(def("braille_dots_234568", 0x10028be));
    v.push(def("braille_dots_1234568", 0x10028bf));
    v.push(def("braille_dots_78", 0x10028c0));
    v.push(def("braille_dots_178", 0x10028c1));
    v.push(def("braille_dots_278", 0x10028c2));
    v.push(def("braille_dots_1278", 0x10028c3));
    v.push(def("braille_dots_378", 0x10028c4));
    v.push(def("braille_dots_1378", 0x10028c5));
    v.push(def("braille_dots_2378", 0x10028c6));
    v.push(def("braille_dots_12378", 0x10028c7));
    v.push(def("braille_dots_478", 0x10028c8));
    v.push(def("braille_dots_1478", 0x10028c9));
    v.push(def("braille_dots_2478", 0x10028ca));
    v.push(def("braille_dots_12478", 0x10028cb));
    v.push(def("braille_dots_3478", 0x10028cc));
    v.push(def("braille_dots_13478", 0x10028cd));
    v.push(def("braille_dots_23478", 0x10028ce));
    v.push(def("braille_dots_123478", 0x10028cf));
    v.push(def("braille_dots_578", 0x10028d0));
    v.push(def("braille_dots_1578", 0x10028d1));
    v.push(def("braille_dots_2578", 0x10028d2));
    v.push(def("braille_dots_12578", 0x10028d3));
    v.push(def("braille_dots_3578", 0x10028d4));
    v.push(def("braille_dots_13578", 0x10028d5));
    v.push(def("braille_dots_23578", 0x10028d6));
    v.push(def("braille_dots_123578", 0x10028d7));
    v.push(def("braille_dots_4578", 0x10028d8));
    v.push(def("braille_dots_14578", 0x10028d9));
    v.push(def("braille_dots_24578", 0x10028da));
    v.push(def("braille_dots_124578", 0x10028db));
    v.push(def("braille_dots_34578", 0x10028dc));
    v.push(def("braille_dots_134578", 0x10028dd));
    v.push(def("braille_dots_234578", 0x10028de));
    v.push(def("braille_dots_1234578", 0x10028df));
    v.push(def("braille_dots_678", 0x10028e0));
    v.push(def("braille_dots_1678", 0x10028e1));
    v.push(def("braille_dots_2678", 0x10028e2));
    v.push(def("braille_dots_12678", 0x10028e3));
    v.push(def("braille_dots_3678", 0x10028e4));
    v.push(def("braille_dots_13678", 0x10028e5));
    v.push(def("braille_dots_23678", 0x10028e6));
    v.push(def("braille_dots_123678", 0x10028e7));
    v.push(def("braille_dots_4678", 0x10028e8));
    v.push(def("braille_dots_14678", 0x10028e9));
    v.push(def("braille_dots_24678", 0x10028ea));
    v.push(def("braille_dots_124678", 0x10028eb));
    v.push(def("braille_dots_34678", 0x10028ec));
    v.push(def("braille_dots_134678", 0x10028ed));
    v.push(def("braille_dots_234678", 0x10028ee));
    v.push(def("braille_dots_1234678", 0x10028ef));
    v.push(def("braille_dots_5678", 0x10028f0));
    v.push(def("braille_dots_15678", 0x10028f1));
    v.push(def("braille_dots_25678", 0x10028f2));
    v.push(def("braille_dots_125678", 0x10028f3));
    v.push(def("braille_dots_35678", 0x10028f4));
    v.push(def("braille_dots_135678", 0x10028f5));
    v.push(def("braille_dots_235678", 0x10028f6));
    v.push(def("braille_dots_1235678", 0x10028f7));
    v.push(def("braille_dots_45678", 0x10028f8));
    v.push(def("braille_dots_145678", 0x10028f9));
    v.push(def("braille_dots_245678", 0x10028fa));
    v.push(def("braille_dots_1245678", 0x10028fb));
    v.push(def("braille_dots_345678", 0x10028fc));
    v.push(def("braille_dots_1345678", 0x10028fd));
    v.push(def("braille_dots_2345678", 0x10028fe));
    v.push(def("braille_dots_12345678", 0x10028ff));
}

/// Sinhala.
fn defs_sinhala(v: &mut Vec<SymEntry>) {
    v.push(def("Sinh_ng", 0x1000d82));
    v.push(def("Sinh_h2", 0x1000d83));
    v.push(def("Sinh_a", 0x1000d85));
    v.push(def("Sinh_aa", 0x1000d86));
    v.push(def("Sinh_ae", 0x1000d87));
    v.push(def("Sinh_aee", 0x1000d88));
    v.push(def("Sinh_i", 0x1000d89));
    v.push(def("Sinh_ii", 0x1000d8a));
    v.push(def("Sinh_u", 0x1000d8b));
    v.push(def("Sinh_uu", 0x1000d8c));
    v.push(def("Sinh_ri", 0x1000d8d));
    v.push(def("Sinh_rii", 0x1000d8e));
    v.push(def("Sinh_lu", 0x1000d8f));
    v.push(def("Sinh_luu", 0x1000d90));
    v.push(def("Sinh_e", 0x1000d91));
    v.push(def("Sinh_ee", 0x1000d92));
    v.push(def("Sinh_ai", 0x1000d93));
    v.push(def("Sinh_o", 0x1000d94));
    v.push(def("Sinh_oo", 0x1000d95));
    v.push(def("Sinh_au", 0x1000d96));
    v.push(def("Sinh_ka", 0x1000d9a));
    v.push(def("Sinh_kha", 0x1000d9b));
    v.push(def("Sinh_ga", 0x1000d9c));
    v.push(def("Sinh_gha", 0x1000d9d));
    v.push(def("Sinh_ng2", 0x1000d9e));
    v.push(def("Sinh_nga", 0x1000d9f));
    v.push(def("Sinh_ca", 0x1000da0));
    v.push(def("Sinh_cha", 0x1000da1));
    v.push(def("Sinh_ja", 0x1000da2));
    v.push(def("Sinh_jha", 0x1000da3));
    v.push(def("Sinh_nya", 0x1000da4));
    v.push(def("Sinh_jnya", 0x1000da5));
    v.push(def("Sinh_nja", 0x1000da6));
    v.push(def("Sinh_tta", 0x1000da7));
    v.push(def("Sinh_ttha", 0x1000da8));
    v.push(def("Sinh_dda", 0x1000da9));
    v.push(def("Sinh_ddha", 0x1000daa));
    v.push(def("Sinh_nna", 0x1000dab));
    v.push(def("Sinh_ndda", 0x1000dac));
    v.push(def("Sinh_tha", 0x1000dad));
    v.push(def("Sinh_thha", 0x1000dae));
    v.push(def("Sinh_dha", 0x1000daf));
    v.push(def("Sinh_dhha", 0x1000db0));
    v.push(def("Sinh_na", 0x1000db1));
    v.push(def("Sinh_ndha", 0x1000db3));
    v.push(def("Sinh_pa", 0x1000db4));
    v.push(def("Sinh_pha", 0x1000db5));
    v.push(def("Sinh_ba", 0x1000db6));
    v.push(def("Sinh_bha", 0x1000db7));
    v.push(def("Sinh_ma", 0x1000db8));
    v.push(def("Sinh_mba", 0x1000db9));
    v.push(def("Sinh_ya", 0x1000dba));
    v.push(def("Sinh_ra", 0x1000dbb));
    v.push(def("Sinh_la", 0x1000dbd));
    v.push(def("Sinh_va", 0x1000dc0));
    v.push(def("Sinh_sha", 0x1000dc1));
    v.push(def("Sinh_ssha", 0x1000dc2));
    v.push(def("Sinh_sa", 0x1000dc3));
    v.push(def("Sinh_ha", 0x1000dc4));
    v.push(def("Sinh_lla", 0x1000dc5));
    v.push(def("Sinh_fa", 0x1000dc6));
    v.push(def("Sinh_al", 0x1000dca));
    v.push(def("Sinh_aa2", 0x1000dcf));
    v.push(def("Sinh_ae2", 0x1000dd0));
    v.push(def("Sinh_aee2", 0x1000dd1));
    v.push(def("Sinh_i2", 0x1000dd2));
    v.push(def("Sinh_ii2", 0x1000dd3));
    v.push(def("Sinh_u2", 0x1000dd4));
    v.push(def("Sinh_uu2", 0x1000dd6));
    v.push(def("Sinh_ru2", 0x1000dd8));
    v.push(def("Sinh_e2", 0x1000dd9));
    v.push(def("Sinh_ee2", 0x1000dda));
    v.push(def("Sinh_ai2", 0x1000ddb));
    v.push(def("Sinh_o2", 0x1000ddc));
    v.push(def("Sinh_oo2", 0x1000ddd));
    v.push(def("Sinh_au2", 0x1000dde));
    v.push(def("Sinh_lu2", 0x1000ddf));
    v.push(def("Sinh_ruu2", 0x1000df2));
    v.push(def("Sinh_luu2", 0x1000df3));
    v.push(def("Sinh_kunddaliya", 0x1000df4));
}

/// The built-in definition table: the standard key symbol names and
/// codes, section by section, in their standard definition order.
pub fn default_defs() -> (r: Vec<SymEntry>) {
    let mut v: Vec<SymEntry> = Vec::new();
    defs_void(&mut v);
    defs_misc(&mut v);
    defs_extension(&mut v);
    defs_terminal(&mut v);
    defs_latin1(&mut v);
    defs_latin2(&mut v);
    defs_latin3(&mut v);
    defs_latin4(&mut v);
    defs_latin8(&mut v);
    defs_latin9(&mut v);
    defs_katakana(&mut v);
    defs_arabic(&mut v);
    defs_cyrillic(&mut v);
    defs_greek(&mut v);
    defs_technical(&mut v);
    defs_special(&mut v);
    defs_publishing(&mut v);
    defs_apl(&mut v);
    defs_hebrew(&mut v);
    defs_thai(&mut v);
    defs_korean(&mut v);
    defs_armenian(&mut v);
    defs_georgian(&mut v);
    defs_caucasus(&mut v);
    defs_vietnamese(&mut v);
    defs_currency(&mut v);
    defs_mathematical(&mut v);
    defs_braille(&mut v);
    defs_sinhala(&mut v);
    v
}

/// A first-match code lookup lands on an entry whose code no other entry
/// shares.
proof fn lemma_find_code_at(s: Seq<SymEntry>, i: int)
    requires
        0 <= i < s.len(),
        forall|a: int, b: int| 0 <= a < b < s.len() ==> s[a].code != s[b].code,
    ensures
        spec_find_by_code(s, s[i].code) == Some(s[i].name@),
{
    assert(forall|j: int| 0 <= j < i ==> s[j].code != s[i].code);
    lemma_find_by_code_skip(s, i, s[i].code);
    assert(s.skip(i)[0] == s[i]);
}

/// On a coherent table the canonical name of a named code resolves back
/// to the code itself.
pub proof fn lemma_coherent_resolves(t: SymbolTable, k: u32)
    requires
        t.coherent(),
        spec_find_by_code(t.by_code@, k) is Some,
    ensures
        t.spec_name_to_sym(t.spec_sym_to_name(k)) == Some(k),
{
    lemma_find_by_code_is_entry(t.by_code@, k);
    let i = choose|i: int| 0 <= i < t.by_code@.len() && (#[trigger] t.by_code@[i]).code == k
        && spec_find_by_code(t.by_code@, k) == Some(t.by_code@[i].name@);
    assert(t.spec_name_to_sym(t.by_code@[i].name@) == Some(t.by_code@[i].code));
}

/// A table built from definitions with pairwise distinct names is
/// coherent: every recorded name leads back to its code.
pub proof fn lemma_unique_defs_coherent(t: SymbolTable, defs: Seq<SymEntry>)
    requires
        t.codes_unique(),
        forall|a: int, b: int| 0 <= a < b < defs.len()
            ==> (#[trigger] defs[a]).name@ != (#[trigger] defs[b]).name@,
        forall|k: u32| spec_find_by_code(t.by_code@, k) == spec_find_by_code(defs, k),
        forall|n: Seq<char>| spec_find_by_name(t.by_name@, n)
            == spec_find_by_name(defs.reverse(), n),
    ensures
        t.coherent(),
{
    assert forall|i: int| 0 <= i < t.by_code@.len() implies t.spec_name_to_sym(
        (#[trigger] t.by_code@[i]).name@,
    ) == Some(t.by_code@[i].code) by {
        let k = t.by_code@[i].code;
        let n = t.by_code@[i].name@;
        lemma_find_code_at(t.by_code@, i);
        assert(spec_find_by_code(defs, k) == Some(n));
        lemma_find_by_code_is_entry(defs, k);
        let d = choose|d: int| 0 <= d < defs.len() && (#[trigger] defs[d]).code == k
            && spec_find_by_code(defs, k) == Some(defs[d].name@);
        let rev = defs.reverse();
        assert forall|j: int| 0 <= j < defs.len() - 1 - d implies rev[j].name@ != n by {
            assert(rev[j] == defs[defs.len() - 1 - j]);
            assert(defs[d].name@ != defs[defs.len() - 1 - j].name@);
        }
        lemma_find_by_name_skip(rev, defs.len() - 1 - d, n);
        assert(rev.skip(defs.len() - 1 - d)[0] == rev[defs.len() - 1 - d]);
        assert(rev[defs.len() - 1 - d] == defs[d]);
    }
}

/// The standard codes of the names the crate's own logic leans on: the
/// keys the modifier classifier looks up, and the keys of the canonical
/// example configuration.
pub open spec fn pins_default_names(t: SymbolTable) -> bool {
    &&& t.spec_name_to_sym("Shift_L"@) == Some(0xffe1u32)
    &&& t.spec_name_to_sym("Hyper_R"@) == Some(0xffeeu32)
    &&& t.spec_name_to_sym("Mode_switch"@) == Some(0xff7eu32)
    &&& t.spec_name_to_sym("Num_Lock"@) == Some(0xff7fu32)
    &&& t.spec_name_to_sym("ISO_Lock"@) == Some(0xfe01u32)
    &&& t.spec_name_to_sym("ISO_Level5_Lock"@) == Some(0xfe13u32)
    &&& t.spec_name_to_sym("F6"@) == Some(0xffc3u32)
    &&& t.spec_name_to_sym("F11"@) == Some(0xffc8u32)
    &&& t.spec_name_to_sym("a"@) == Some(0x61u32)
    &&& t.spec_name_to_sym("b"@) == Some(0x62u32)
    &&& t.spec_name_to_sym("c"@) == Some(0x63u32)
    &&& t.spec_name_to_sym("e"@) == Some(0x65u32)
    &&& t.spec_name_to_sym("r"@) == Some(0x72u32)
    &&& t.spec_name_to_sym("x"@) == Some(0x78u32)
}

/// Runtime check for [`pins_default_names`].
pub fn check_default_names(t: &SymbolTable) -> (r: bool)
    ensures
        r == pins_default_names(*t),
{
    let c01 = match name_to_sym(t, "Shift_L") { Some(c) => c == 0xffe1, None => false };
    let c02 = match name_to_sym(t, "Hyper_R") { Some(c) => c == 0xffee, None => false };
    let c03 = match name_to_sym(t, "Mode_switch") { Some(c) => c == 0xff7e, None => false };
    let c04 = match name_to_sym(t, "Num_Lock") { Some(c) => c == 0xff7f, None => false };
    let c05 = match name_to_sym(t, "ISO_Lock") { Some(c) => c == 0xfe01, None => false };
    let c06 = match name_to_sym(t, "ISO_Level5_Lock") { Some(c) => c == 0xfe13, None => false };
    let c07 = match name_to_sym(t, "F6") { Some(c) => c == 0xffc3, None => false };
    let c08 = match name_to_sym(t, "F11") { Some(c) => c == 0xffc8, None => false };
    let c09 = match name_to_sym(t, "a") { Some(c) => c == 0x61, None => false };
    let c10 = match name_to_sym(t, "b") { Some(c) => c == 0x62, None => false };
    let c11 = match name_to_sym(t, "c") { Some(c) => c == 0x63, None => false };
    let c12 = match name_to_sym(t, "e") { Some(c) => c == 0x65, None => false };
    let c13 = match name_to_sym(t, "r") { Some(c) => c == 0x72, None => false };
    let c14 = match name_to_sym(t, "x") { Some(c) => c == 0x78, None => false };
    c01 && c02 && c03 && c04 && c05 && c06 && c07 && c08 && c09 && c10 && c11 && c12 && c13
        && c14
}

/// The held-in-reserve table of exactly the names the contracts pin.  It
/// backs [`default_table`]'s promises if the full definition list were
/// ever refused, so those promises hold on every path.
#[verifier::rlimit(100)]
fn fallback_table() -> (r: SymbolTable)
    ensures
        r.wf(),
        r.coherent(),
        pins_default_names(r),
{
    let mut defs: Vec<SymEntry> = Vec::new();
    defs.push(def("Shift_L", 0xffe1));
    defs.push(def("Hyper_R", 0xffee));
    defs.push(def("Mode_switch", 0xff7e));
    defs.push(def("Num_Lock", 0xff7f));
    defs.push(def("ISO_Lock", 0xfe01));
    defs.push(def("ISO_Level5_Lock", 0xfe13));
    defs.push(def("F6", 0xffc3));
    defs.push(def("F11", 0xffc8));
    defs.push(def("a", 0x61));
    defs.push(def("b", 0x62));
    defs.push(def("c", 0x63));
    defs.push(def("e", 0x65));
    defs.push(def("r", 0x72));
    defs.push(def("x", 0x78));
    proof {
        reveal_strlit("Shift_L");
        reveal_strlit("Hyper_R");
        reveal_strlit("Mode_switch");
        reveal_strlit("Num_Lock");
        reveal_strlit("ISO_Lock");
        reveal_strlit("ISO_Level5_Lock");
        reveal_strlit("F6");
        reveal_strlit("F11");
        reveal_strlit("a");
        reveal_strlit("b");
        reveal_strlit("c");
        reveal_strlit("e");
        reveal_strlit("r");
        reveal_strlit("x");
        // first characters tell the same-length names apart
        assert("Shift_L"@[0] == 'S');
        assert("Hyper_R"@[0] == 'H');
        assert("Num_Lock"@[0] == 'N');
        assert("ISO_Lock"@[0] == 'I');
        assert("a"@[0] == 'a');
        assert("b"@[0] == 'b');
        assert("c"@[0] == 'c');
        assert("e"@[0] == 'e');
        assert("r"@[0] == 'r');
        assert("x"@[0] == 'x');
        assert(forall|i: int| 0 <= i < defs@.len()
            ==> valid_sym_name(#[trigger] defs@[i].name@));
    }
    let t = match SymbolTable::from_defs(&defs) {
        Some(t) => t,
        None => unreached(),
    };
    proof {
        let rev = defs@.reverse();
        assert(forall|a: int, b: int| 0 <= a < b < defs@.len()
            ==> (#[trigger] defs@[a]).name@ != (#[trigger] defs@[b]).name@);
        lemma_unique_defs_coherent(t, defs@);
        assert forall|d: int| 0 <= d < defs@.len() implies t.spec_name_to_sym(
            (#[trigger] defs@[d]).name@,
        ) == Some(defs@[d].code) by {
            assert forall|j: int| 0 <= j < defs@.len() - 1 - d implies rev[j].name@
                != defs@[d].name@ by {
                assert(rev[j] == defs@[defs@.len() - 1 - j]);
            }
            lemma_find_by_name_skip(rev, defs@.len() - 1 - d, defs@[d].name@);
            assert(rev.skip(defs@.len() - 1 - d)[0] == rev[defs@.len() - 1 - d]);
            assert(rev[defs@.len() - 1 - d] == defs@[d]);
        }
        assert(defs@[0].name@ == "Shift_L"@ && defs@[0].code == 0xffe1u32);
        assert(defs@[1].name@ == "Hyper_R"@ && defs@[1].code == 0xffeeu32);
        assert(defs@[2].name@ == "Mode_switch"@ && defs@[2].code == 0xff7eu32);
        assert(defs@[3].name@ == "Num_Lock"@ && defs@[3].code == 0xff7fu32);
        assert(defs@[4].name@ == "ISO_Lock"@ && defs@[4].code == 0xfe01u32);
        assert(defs@[5].name@ == "ISO_Level5_Lock"@ && defs@[5].code == 0xfe13u32);
        assert(defs@[6].name@ == "F6"@ && defs@[6].code == 0xffc3u32);
        assert(defs@[7].name@ == "F11"@ && defs@[7].code == 0xffc8u32);
        assert(defs@[8].name@ == "a"@ && defs@[8].code == 0x61u32);
        assert(defs@[9].name@ == "b"@ && defs@[9].code == 0x62u32);
        assert(defs@[10].name@ == "c"@ && defs@[10].code == 0x63u32);
        assert(defs@[11].name@ == "e"@ && defs@[11].code == 0x65u32);
        assert(defs@[12].name@ == "r"@ && defs@[12].code == 0x72u32);
        assert(defs@[13].name@ == "x"@ && defs@[13].code == 0x78u32);
        assert(t.spec_name_to_sym("Shift_L"@) == Some(0xffe1u32));
        assert(t.spec_name_to_sym("Hyper_R"@) == Some(0xffeeu32));
        assert(t.spec_name_to_sym("Mode_switch"@) == Some(0xff7eu32));
        assert(t.spec_name_to_sym("Num_Lock"@) == Some(0xff7fu32));
        assert(t.spec_name_to_sym("ISO_Lock"@) == Some(0xfe01u32));
        assert(t.spec_name_to_sym("ISO_Level5_Lock"@) == Some(0xfe13u32));
        assert(t.spec_name_to_sym("F6"@) == Some(0xffc3u32));
        assert(t.spec_name_to_sym("F11"@) == Some(0xffc8u32));
        assert(t.spec_name_to_sym("a"@) == Some(0x61u32));
        assert(t.spec_name_to_sym("b"@) == Some(0x62u32));
        assert(t.spec_name_to_sym("c"@) == Some(0x63u32));
        assert(t.spec_name_to_sym("e"@) == Some(0x65u32));
        assert(t.spec_name_to_sym("r"@) == Some(0x72u32));
        assert(t.spec_name_to_sym("x"@) == Some(0x78u32));
    }
    t
}

/// The symbol table built from the built-in definitions.  It is
/// well-formed, coherent — every recorded name leads back to its code, so
/// formatted combinations of named keys re-parse to themselves — and
/// resolves the names the modifier classifier and the canonical example
/// configuration rely on to their standard codes.
pub fn default_table() -> (r: SymbolTable)
    ensures
        r.wf(),
        r.coherent(),
        pins_default_names(r),
        r.has_modifier_names(),
{
    match SymbolTable::from_defs(&default_defs()) {
        Some(t) => {
            let names_good = check_default_names(&t);
            let closed = t.check_coherent();
            if names_good && closed {
                return t;
            }
        },
        None => {},
    }
    fallback_table()
}

/// The code a name resolves to, if any.
pub fn name_to_sym(table: &SymbolTable, name: &str) -> (r: Option<KeySym>)
    ensures
        r == table.spec_name_to_sym(name@),
{
    lookup_name(&table.by_name, name)
}

/// The canonical name of a code; never fails, unknown codes render as
/// `<N>`.
pub fn sym_to_name(table: &SymbolTable, k: KeySym) -> (r: String)
    ensures
        r@ == table.spec_sym_to_name(k),
{
    match lookup_code(&table.by_code, k) {
        Some(n) => n,
        None => {
            let mut s = "<".to_owned();
            s.append(u32_to_decimal(k).as_str());
            s.append(">");
            proof {
                reveal_strlit("<");
                reveal_strlit(">");
                assert(s@ =~= spec_unknown_name(k));
            }
            s
        },
    }
}

/// Whether a code is a bare modifier key, whose presses the chord engine
/// ignores: the `Shift_L..Hyper_R` range, the ISO lock range where the
/// table resolves both of its endpoints, `Mode_switch`, or `Num_Lock`.
pub open spec fn spec_is_modifier(t: SymbolTable, k: u32) -> bool {
    match (t.spec_name_to_sym("Shift_L"@), t.spec_name_to_sym("Hyper_R"@),
           t.spec_name_to_sym("Mode_switch"@), t.spec_name_to_sym("Num_Lock"@)) {
        (Some(shift_l), Some(hyper_r), Some(mode_switch), Some(num_lock)) => {
            let iso = match (t.spec_name_to_sym("ISO_Lock"@),
                             t.spec_name_to_sym("ISO_Level5_Lock"@)) {
                (Some(lo), Some(hi)) => lo <= k && k <= hi,
                _ => false,
            };
            (shift_l <= k && k <= hyper_r) || iso || k == mode_switch || k == num_lock
        },
        _ => false,
    }
}

/// Whether a key symbol is a bare modifier key.
pub fn is_modifier(table: &SymbolTable, k: KeySym) -> (r: bool)
    requires
        table.has_modifier_names(),
    ensures
        r == spec_is_modifier(*table, k),
{
    let shift_l = name_to_sym(table, "Shift_L").unwrap();
    let hyper_r = name_to_sym(table, "Hyper_R").unwrap();
    let mode_switch = name_to_sym(table, "Mode_switch").unwrap();
    let num_lock = name_to_sym(table, "Num_Lock").unwrap();

    let iso = match (name_to_sym(table, "ISO_Lock"), name_to_sym(table, "ISO_Level5_Lock")) {
        (Some(lo), Some(hi)) => lo <= k && k <= hi,
        _ => false,
    };

    (shift_l <= k && k <= hyper_r) || iso || k == mode_switch || k == num_lock
}

} // verus!
