//! The `Mod-Mod-...-Key` combination grammar: logical modifier flags and a
//! key symbol, parsed from and formatted to the canonical text form.
//!
//! Parsing splits on `-`; every token but the last may name a modifier
//! (unrecognized tokens are ignored), the last must resolve through the
//! symbol table.  Formatting emits the set flags in the fixed order
//! `C-`, `S-`, `M-`, `A-`, `H-` followed by the key's canonical name;
//! that order is a durable contract for any displayed string.

use vstd::prelude::*;
use crate::error::Error;
use crate::keysym::{KeySym, SymbolTable, name_to_sym, sym_to_name, valid_sym_name,
    lemma_sym_name_valid, lemma_coherent_resolves, spec_find_by_code};
use crate::strutil::{spec_split, lemma_split_len, lemma_split_no_sep, lemma_split_sep_append,
    split_str, string_eq, views};

verus! {

/// The set of five logical modifier flags, independent of which physical
/// keys produce them.
#[derive(Clone, Copy, PartialEq, Eq, Structural, Debug)]
pub struct Modifiers {
    pub control: bool,
    pub alt: bool,
    pub meta: bool,
    pub hyper: bool,
    pub superr: bool,
}

impl Default for Modifiers {
    /// The empty modifier set.
    fn default() -> (r: Self)
        ensures
            r == Modifiers::none(),
    {
        Modifiers { control: false, alt: false, meta: false, hyper: false, superr: false }
    }
}

impl Modifiers {
    /// The modifier set with no flag raised.
    pub open spec fn none() -> Modifiers {
        Modifiers { control: false, alt: false, meta: false, hyper: false, superr: false }
    }
}

/// A structured key combination: a key symbol plus logical modifiers.
#[derive(Clone, Copy, PartialEq, Eq, Structural, Debug)]
pub struct Combination {
    pub key: KeySym,
    pub modifiers: Modifiers,
}

/// The tokens that select the control flag.
pub open spec fn is_control_token(t: Seq<char>) -> bool {
    t == "C"@ || t == "Ctrl"@ || t == "Control"@
}

/// The tokens that select the super flag.
pub open spec fn is_super_token(t: Seq<char>) -> bool {
    t == "S"@ || t == "Sup"@ || t == "Super"@
}

/// The tokens that select the meta flag.
pub open spec fn is_meta_token(t: Seq<char>) -> bool {
    t == "M"@ || t == "Meta"@
}

/// The tokens that select the alt flag.
pub open spec fn is_alt_token(t: Seq<char>) -> bool {
    t == "A"@ || t == "Alt"@
}

/// The tokens that select the hyper flag.
pub open spec fn is_hyper_token(t: Seq<char>) -> bool {
    t == "H"@ || t == "Hyp"@ || t == "Hyper"@
}

/// The modifier set selected by a token list: a flag is raised exactly
/// when some token names it; all other tokens are ignored.
pub open spec fn spec_mods_of(toks: Seq<Seq<char>>) -> Modifiers {
    Modifiers {
        control: exists|i: int| 0 <= i < toks.len() && is_control_token(#[trigger] toks[i]),
        alt: exists|i: int| 0 <= i < toks.len() && is_alt_token(#[trigger] toks[i]),
        meta: exists|i: int| 0 <= i < toks.len() && is_meta_token(#[trigger] toks[i]),
        hyper: exists|i: int| 0 <= i < toks.len() && is_hyper_token(#[trigger] toks[i]),
        superr: exists|i: int| 0 <= i < toks.len() && is_super_token(#[trigger] toks[i]),
    }
}

/// What parsing a combination text yields: the last `-`-separated token
/// must resolve through the symbol table, the front tokens select the
/// modifier flags.
pub open spec fn spec_parse(t: SymbolTable, s: Seq<char>) -> Option<Combination> {
    let toks = spec_split(s, '-');
    match t.spec_name_to_sym(toks.last()) {
        Some(k) => Some(
            Combination { key: k, modifiers: spec_mods_of(toks.take(toks.len() - 1)) },
        ),
        None => None,
    }
}

/// The canonical modifier prefix of a formatted combination, in the fixed
/// display order.
pub open spec fn spec_mod_prefix(m: Modifiers) -> Seq<char> {
    (if m.control { "C-"@ } else { Seq::<char>::empty() })
        .add(if m.superr { "S-"@ } else { Seq::<char>::empty() })
        .add(if m.meta { "M-"@ } else { Seq::<char>::empty() })
        .add(if m.alt { "A-"@ } else { Seq::<char>::empty() })
        .add(if m.hyper { "H-"@ } else { Seq::<char>::empty() })
}

/// The canonical text of a combination.
pub open spec fn spec_format(t: SymbolTable, c: Combination) -> Seq<char> {
    spec_mod_prefix(c.modifiers).add(t.spec_sym_to_name(c.key))
}

impl Combination {
    /// Parses a combination text.  Fails exactly when the key token does
    /// not resolve through the symbol table.
    pub fn parse(table: &SymbolTable, s: &str) -> (r: Result<Combination, Error>)
        ensures
            match r {
                Ok(c) => spec_parse(*table, s@) == Some(c),
                Err(e) => e == Error::UnknownKey && spec_parse(*table, s@) is None,
            },
    {
        proof {
            lemma_split_len(s@, '-');
        }
        let v = split_str(s, '-');
        let n = v.len();
        let mut mods = Modifiers::default();
        let mut i: usize = 0;
        while i < n - 1
            invariant
                1 <= n == v@.len(),
                i <= n - 1,
                views(v@) == spec_split(s@, '-'),
                mods == spec_mods_of(views(v@).take(i as int)),
            decreases n - 1 - i,
        {
            let t = &v[i];
            proof {
                lemma_mod_tokens_distinct(t@);
                assert(views(v@).take(i + 1) =~= views(v@).take(i as int).push(t@));
                assert(views(v@).take(i + 1).take(i as int) =~= views(v@).take(i as int));
            }
            if string_eq(t, "C") || string_eq(t, "Ctrl") || string_eq(t, "Control") {
                mods.control = true;
            } else if string_eq(t, "S") || string_eq(t, "Sup") || string_eq(t, "Super") {
                mods.superr = true;
            } else if string_eq(t, "M") || string_eq(t, "Meta") {
                mods.meta = true;
            } else if string_eq(t, "A") || string_eq(t, "Alt") {
                mods.alt = true;
            } else if string_eq(t, "H") || string_eq(t, "Hyp") || string_eq(t, "Hyper") {
                mods.hyper = true;
            }
            proof {
                lemma_mods_of_push(views(v@).take(i as int), t@);
            }
            i = i + 1;
        }
        proof {
            assert(views(v@).take(n - 1) == spec_split(s@, '-').take(
                spec_split(s@, '-').len() - 1,
            ));
            assert(views(v@)[n - 1] == spec_split(s@, '-').last());
        }
        match name_to_sym(table, v[n - 1].as_str()) {
            Some(key) => Ok(Combination { key, modifiers: mods }),
            None => Err(Error::UnknownKey),
        }
    }

    /// Formats the combination canonically: `C-`, `S-`, `M-`, `A-`, `H-`
    /// for the set flags, in that order, then the key's canonical name.
    pub fn format(&self, table: &SymbolTable) -> (r: String)
        ensures
            r@ == spec_format(*table, *self),
    {
        let mut s = String::new();
        if self.modifiers.control {
            s.append("C-");
        }
        if self.modifiers.superr {
            s.append("S-");
        }
        if self.modifiers.meta {
            s.append("M-");
        }
        if self.modifiers.alt {
            s.append("A-");
        }
        if self.modifiers.hyper {
            s.append("H-");
        }
        let name = sym_to_name(table, self.key);
        s.append(name.as_str());
        proof {
            assert(s@ =~= spec_format(*table, *self));
        }
        s
    }
}

/// The round-trip law, closed over the table: on a well-formed, coherent
/// table — the built-in table is proved to be one — parsing the canonical
/// text of any combination whose key the table names yields the
/// combination back, so canonicalization is idempotent for every named
/// key and every subset of the five flags.
pub proof fn lemma_roundtrip_for_named_keys(t: SymbolTable, c: Combination)
    requires
        t.wf(),
        t.coherent(),
        spec_find_by_code(t.by_code@, c.key) is Some,
    ensures
        spec_parse(t, spec_format(t, c)) == Some(c),
{
    lemma_coherent_resolves(t, c.key);
    lemma_parse_format_roundtrip(t, c);
}

/// A bare, separator-free key name that the table resolves parses as a
/// combination.
pub proof fn lemma_bare_key_parses(t: SymbolTable, s: Seq<char>)
    requires
        t.spec_name_to_sym(s) is Some,
        forall|i: int| 0 <= i < s.len() ==> s[i] != '-',
    ensures
        spec_parse(t, s) is Some,
{
    lemma_split_no_sep(s, '-');
    assert(spec_split(s, '-').last() == s);
}

/// A `C-`-prefixed, separator-free key name that the table resolves
/// parses as a combination.
pub proof fn lemma_control_key_parses(t: SymbolTable, name: Seq<char>)
    requires
        t.spec_name_to_sym(name) is Some,
        forall|i: int| 0 <= i < name.len() ==> name[i] != '-',
    ensures
        spec_parse(t, "C-"@.add(name)) is Some,
{
    reveal_strlit("C-");
    reveal_strlit("C");
    assert("C-"@.add(name) =~= "C"@.add(seq!['-']).add(name));
    assert("C"@[0] == 'C');
    lemma_split_sep_append("C"@, name, '-');
    lemma_split_no_sep(name, '-');
    let toks = spec_split("C-"@.add(name), '-');
    assert(toks =~~= seq!["C"@].add(seq![name]));
    assert(toks.last() == name);
}

/// A token names at most one flag: the five token sets are pairwise
/// disjoint.
pub proof fn lemma_mod_tokens_distinct(t: Seq<char>)
    ensures
        is_control_token(t) ==> !is_super_token(t) && !is_meta_token(t)
            && !is_alt_token(t) && !is_hyper_token(t),
        is_super_token(t) ==> !is_meta_token(t) && !is_alt_token(t)
            && !is_hyper_token(t) && !is_control_token(t),
        is_meta_token(t) ==> !is_alt_token(t) && !is_hyper_token(t)
            && !is_control_token(t) && !is_super_token(t),
        is_alt_token(t) ==> !is_hyper_token(t) && !is_control_token(t)
            && !is_super_token(t) && !is_meta_token(t),
        is_hyper_token(t) ==> !is_control_token(t) && !is_super_token(t)
            && !is_meta_token(t) && !is_alt_token(t),
{
    reveal_strlit("C");
    reveal_strlit("Ctrl");
    reveal_strlit("Control");
    reveal_strlit("S");
    reveal_strlit("Sup");
    reveal_strlit("Super");
    reveal_strlit("M");
    reveal_strlit("Meta");
    reveal_strlit("A");
    reveal_strlit("Alt");
    reveal_strlit("H");
    reveal_strlit("Hyp");
    reveal_strlit("Hyper");
    // Naming each token's first character lets the solver tell the
    // same-length tokens apart.
    assert("C"@[0] == 'C');
    assert("S"@[0] == 'S');
    assert("M"@[0] == 'M');
    assert("A"@[0] == 'A');
    assert("H"@[0] == 'H');
    assert("Sup"@[0] == 'S');
    assert("Alt"@[0] == 'A');
    assert("Hyp"@[0] == 'H');
    assert("Ctrl"@[0] == 'C');
    assert("Meta"@[0] == 'M');
    assert("Super"@[0] == 'S');
    assert("Hyper"@[0] == 'H');
    assert("Control"@[0] == 'C');
}

/// The token list that formatting emits for a modifier set, in the fixed
/// display order.
pub open spec fn mod_token_seq(m: Modifiers) -> Seq<Seq<char>> {
    (if m.control { seq!["C"@] } else { Seq::<Seq<char>>::empty() })
        .add(if m.superr { seq!["S"@] } else { Seq::<Seq<char>>::empty() })
        .add(if m.meta { seq!["M"@] } else { Seq::<Seq<char>>::empty() })
        .add(if m.alt { seq!["A"@] } else { Seq::<Seq<char>>::empty() })
        .add(if m.hyper { seq!["H"@] } else { Seq::<Seq<char>>::empty() })
}

/// Splitting a canonically formatted combination recovers the modifier
/// tokens and the key name.
#[verifier::rlimit(100)]
pub proof fn lemma_split_format(m: Modifiers, name: Seq<char>)
    requires
        valid_sym_name(name),
    ensures
        spec_split(spec_mod_prefix(m).add(name), '-')
            =~~= mod_token_seq(m).add(seq![name]),
{
    reveal_strlit("C");
    reveal_strlit("S");
    reveal_strlit("M");
    reveal_strlit("A");
    reveal_strlit("H");
    reveal_strlit("C-");
    reveal_strlit("S-");
    reveal_strlit("M-");
    reveal_strlit("A-");
    reveal_strlit("H-");
    lemma_split_no_sep(name, '-');
    let s0 = name;
    let t0 = seq![name];
    let s1 = if m.hyper { "H-"@.add(s0) } else { s0 };
    let t1 = if m.hyper { seq!["H"@].add(t0) } else { t0 };
    if m.hyper {
        assert(s1 =~= "H"@.add(seq!['-']).add(s0));
        lemma_split_sep_append("H"@, s0, '-');
    }
    assert(spec_split(s1, '-') =~~= t1);
    let s2 = if m.alt { "A-"@.add(s1) } else { s1 };
    let t2 = if m.alt { seq!["A"@].add(t1) } else { t1 };
    if m.alt {
        assert(s2 =~= "A"@.add(seq!['-']).add(s1));
        lemma_split_sep_append("A"@, s1, '-');
    }
    assert(spec_split(s2, '-') =~~= t2);
    let s3 = if m.meta { "M-"@.add(s2) } else { s2 };
    let t3 = if m.meta { seq!["M"@].add(t2) } else { t2 };
    if m.meta {
        assert(s3 =~= "M"@.add(seq!['-']).add(s2));
        lemma_split_sep_append("M"@, s2, '-');
    }
    assert(spec_split(s3, '-') =~~= t3);
    let s4 = if m.superr { "S-"@.add(s3) } else { s3 };
    let t4 = if m.superr { seq!["S"@].add(t3) } else { t3 };
    if m.superr {
        assert(s4 =~= "S"@.add(seq!['-']).add(s3));
        lemma_split_sep_append("S"@, s3, '-');
    }
    assert(spec_split(s4, '-') =~~= t4);
    let s5 = if m.control { "C-"@.add(s4) } else { s4 };
    let t5 = if m.control { seq!["C"@].add(t4) } else { t4 };
    if m.control {
        assert(s5 =~= "C"@.add(seq!['-']).add(s4));
        lemma_split_sep_append("C"@, s4, '-');
    }
    assert(spec_split(s5, '-') =~~= t5);
    assert(s5 =~= spec_mod_prefix(m).add(name));
    assert(t5 =~~= mod_token_seq(m).add(seq![name]));
}

/// The token list emitted for a modifier set selects that same set back.
pub proof fn lemma_mods_of_token_seq(m: Modifiers)
    ensures
        spec_mods_of(mod_token_seq(m)) == m,
{
    reveal_strlit("C");
    reveal_strlit("S");
    reveal_strlit("M");
    reveal_strlit("A");
    reveal_strlit("H");
    lemma_mod_tokens_distinct("C"@);
    lemma_mod_tokens_distinct("S"@);
    lemma_mod_tokens_distinct("M"@);
    lemma_mod_tokens_distinct("A"@);
    lemma_mod_tokens_distinct("H"@);
    let t0 = Seq::<Seq<char>>::empty();
    let t1 = if m.control { t0.push("C"@) } else { t0 };
    let t2 = if m.superr { t1.push("S"@) } else { t1 };
    let t3 = if m.meta { t2.push("M"@) } else { t2 };
    let t4 = if m.alt { t3.push("A"@) } else { t3 };
    let t5 = if m.hyper { t4.push("H"@) } else { t4 };
    assert(spec_mods_of(t0) == Modifiers::none());
    if m.control {
        lemma_mods_of_push(t0, "C"@);
    }
    assert(spec_mods_of(t1) == (Modifiers { control: m.control, ..Modifiers::none() }));
    if m.superr {
        lemma_mods_of_push(t1, "S"@);
    }
    assert(spec_mods_of(t2) == (Modifiers {
        control: m.control,
        superr: m.superr,
        ..Modifiers::none()
    }));
    if m.meta {
        lemma_mods_of_push(t2, "M"@);
    }
    assert(spec_mods_of(t3) == (Modifiers {
        control: m.control,
        superr: m.superr,
        meta: m.meta,
        ..Modifiers::none()
    }));
    if m.alt {
        lemma_mods_of_push(t3, "A"@);
    }
    assert(spec_mods_of(t4) == (Modifiers {
        control: m.control,
        superr: m.superr,
        meta: m.meta,
        alt: m.alt,
        ..Modifiers::none()
    }));
    if m.hyper {
        lemma_mods_of_push(t4, "H"@);
    }
    assert(spec_mods_of(t5) == m);
    assert(t5 =~~= mod_token_seq(m));
}

/// The round-trip law of the grammar: parsing a canonically formatted
/// combination yields the combination itself, so canonicalization is
/// idempotent and the display order of the flags is always `C,S,M,A,H`
/// whatever the input order was.  It holds for every combination whose
/// key's canonical name resolves back to the key.
pub proof fn lemma_parse_format_roundtrip(t: SymbolTable, c: Combination)
    requires
        t.wf(),
        t.spec_name_to_sym(t.spec_sym_to_name(c.key)) == Some(c.key),
    ensures
        spec_parse(t, spec_format(t, c)) == Some(c),
{
    let name = t.spec_sym_to_name(c.key);
    lemma_sym_name_valid(t, c.key);
    lemma_split_format(c.modifiers, name);
    lemma_mods_of_token_seq(c.modifiers);
    let toks = spec_split(spec_format(t, c), '-');
    assert(toks == mod_token_seq(c.modifiers).add(seq![name]));
    assert(toks.last() == name);
    assert(toks.take(toks.len() - 1) =~~= mod_token_seq(c.modifiers));
}

/// How the selected modifier set grows by one token.
pub proof fn lemma_mods_of_push(toks: Seq<Seq<char>>, t: Seq<char>)
    ensures
        spec_mods_of(toks.push(t)) == (Modifiers {
            control: spec_mods_of(toks).control || is_control_token(t),
            alt: spec_mods_of(toks).alt || is_alt_token(t),
            meta: spec_mods_of(toks).meta || is_meta_token(t),
            hyper: spec_mods_of(toks).hyper || is_hyper_token(t),
            superr: spec_mods_of(toks).superr || is_super_token(t),
        }),
{
    let p = toks.push(t);
    assert(p[toks.len() as int] == t);
    assert(forall|i: int| 0 <= i < toks.len() ==> p[i] == toks[i]);
    assert(spec_mods_of(p).control == (spec_mods_of(toks).control || is_control_token(t)))
        by {
        if spec_mods_of(p).control {
            let i = choose|i: int| 0 <= i < p.len() && is_control_token(#[trigger] p[i]);
            if i < toks.len() {
                assert(is_control_token(toks[i]));
            }
        }
    }
    assert(spec_mods_of(p).alt == (spec_mods_of(toks).alt || is_alt_token(t))) by {
        if spec_mods_of(p).alt {
            let i = choose|i: int| 0 <= i < p.len() && is_alt_token(#[trigger] p[i]);
            if i < toks.len() {
                assert(is_alt_token(toks[i]));
            }
        }
    }
    assert(spec_mods_of(p).meta == (spec_mods_of(toks).meta || is_meta_token(t))) by {
        if spec_mods_of(p).meta {
            let i = choose|i: int| 0 <= i < p.len() && is_meta_token(#[trigger] p[i]);
            if i < toks.len() {
                assert(is_meta_token(toks[i]));
            }
        }
    }
    assert(spec_mods_of(p).hyper == (spec_mods_of(toks).hyper || is_hyper_token(t))) by {
        if spec_mods_of(p).hyper {
            let i = choose|i: int| 0 <= i < p.len() && is_hyper_token(#[trigger] p[i]);
            if i < toks.len() {
                assert(is_hyper_token(toks[i]));
            }
        }
    }
    assert(spec_mods_of(p).superr == (spec_mods_of(toks).superr || is_super_token(t))) by {
        if spec_mods_of(p).superr {
            let i = choose|i: int| 0 <= i < p.len() && is_super_token(#[trigger] p[i]);
            if i < toks.len() {
                assert(is_super_token(toks[i]));
            }
        }
    }
}

} // verus!
