//! The grab manager's plan: for one root combination, the eight grab (or
//! ungrab) requests that make the grab fire regardless of the CapsLock,
//! NumLock and ScrollLock state.

use vstd::prelude::*;
use crate::action::MapEntry;
use crate::combination::{Combination, Modifiers, spec_parse};
use crate::config::Config;
use crate::error::Error;
use crate::keyboard::{keycode_for, spec_keycode_for};
use crate::keysym::{KeySym, SymbolTable};
use crate::masks::{Masks, MOD_MASK_LOCK};
use crate::strutil::{spec_split, split_str, views};

verus! {

/// One request against the windowing system: grab or release this keycode
/// under this exact physical modifier mask.
#[derive(Clone, Copy, PartialEq, Eq, Structural, Debug)]
pub struct GrabRequest {
    pub keycode: u8,
    pub modifiers: u16,
}

/// The eight ignored-modifier variants: every subset of
/// {CapsLock, NumLock, ScrollLock} OR-ed onto the base mask, in the fixed
/// order the daemon issues them.
pub open spec fn spec_grab_mask_list(m: Masks, base: u32) -> Seq<u32> {
    seq![
        base | 0u32,
        base | MOD_MASK_LOCK,
        base | m.num_lock,
        base | (MOD_MASK_LOCK | m.num_lock),
        base | m.scroll_lock,
        base | (MOD_MASK_LOCK | m.scroll_lock),
        base | (m.num_lock | m.scroll_lock),
        base | (MOD_MASK_LOCK | m.num_lock | m.scroll_lock),
    ]
}

/// Computes the eight grab masks for a logical modifier set: exactly 8
/// masks, one for each combination of {none, Lock} x {none, NumLock} x
/// {none, ScrollLock} as extra ignored bits on top of the combination's
/// own mask.
pub fn grab_mask_list(masks: &Masks, modifiers: Modifiers) -> (r: Vec<u32>)
    ensures
        r@ == spec_grab_mask_list(*masks, masks.spec_mask_to_x11(modifiers)),
        r@.len() == 8,
{
    let base = masks.mask_to_x11(modifiers);
    let mut r: Vec<u32> = Vec::new();
    r.push(base | 0u32);
    r.push(base | MOD_MASK_LOCK);
    r.push(base | masks.num_lock);
    r.push(base | (MOD_MASK_LOCK | masks.num_lock));
    r.push(base | masks.scroll_lock);
    r.push(base | (MOD_MASK_LOCK | masks.scroll_lock));
    r.push(base | (masks.num_lock | masks.scroll_lock));
    r.push(base | (MOD_MASK_LOCK | masks.num_lock | masks.scroll_lock));
    proof {
        assert(r@ =~= spec_grab_mask_list(*masks, masks.spec_mask_to_x11(modifiers)));
    }
    r
}

/// Plans the grabbing (or releasing) of one combination: resolves the
/// physical keycode of the key symbol — failing with `UnknownKey` when the
/// live mapping has none — and pairs it with each of the eight grab masks,
/// truncated to the request's mask width.
pub fn grab_requests(
    keycode_table: &Vec<u32>,
    masks: &Masks,
    key_sym: KeySym,
    modifiers: Modifiers,
) -> (r: Result<Vec<GrabRequest>, Error>)
    requires
        keycode_table@.len() <= 256,
    ensures
        match r {
            Ok(v) => {
                &&& spec_keycode_for(keycode_table@, key_sym) is Some
                &&& v@.len() == 8
                &&& forall|i: int| 0 <= i < 8 ==> (#[trigger] v@[i]).keycode as int
                    == spec_keycode_for(keycode_table@, key_sym)->Some_0
                &&& forall|i: int| 0 <= i < 8 ==> (#[trigger] v@[i]).modifiers
                    == (spec_grab_mask_list(*masks, masks.spec_mask_to_x11(modifiers))[i] as u16)
            },
            Err(e) => {
                &&& e == Error::UnknownKey
                &&& spec_keycode_for(keycode_table@, key_sym) is None
            },
        },
{
    let keycode = match keycode_for(keycode_table, key_sym) {
        Some(kc) => kc,
        None => {
            return Err(Error::UnknownKey);
        },
    };
    let mask_list = grab_mask_list(masks, modifiers);
    let mut v: Vec<GrabRequest> = Vec::new();
    let ghost full = spec_grab_mask_list(*masks, masks.spec_mask_to_x11(modifiers));
    let mut i: usize = 0;
    while i < 8
        invariant
            i <= 8,
            mask_list@ == full,
            mask_list@.len() == 8,
            v@.len() == i,
            forall|j: int| 0 <= j < i ==> (#[trigger] v@[j]).keycode == keycode,
            forall|j: int| 0 <= j < i ==> (#[trigger] v@[j]).modifiers == (full[j] as u16),
        decreases 8 - i,
    {
        let m = mask_list[i];
        #[verifier::truncate]
        let m16 = m as u16;
        v.push(GrabRequest { keycode, modifiers: m16 });
        i = i + 1;
    }
    Ok(v)
}

/// All comma-separated alternatives of a root map's keys, in entry order.
pub open spec fn spec_all_tokens(entries: Seq<MapEntry>) -> Seq<Seq<char>>
    decreases entries.len(),
{
    if entries.len() == 0 {
        Seq::<Seq<char>>::empty()
    } else {
        spec_split(entries[0].key@, ',').add(spec_all_tokens(entries.skip(1)))
    }
}

/// The grab requests of one alternative: the parsed combination's keycode
/// paired with each of the eight masks; nothing where the key name does
/// not parse or has no keycode in the live mapping.
pub open spec fn spec_token_grabs(
    t: SymbolTable,
    kbd: Seq<u32>,
    m: Masks,
    tok: Seq<char>,
) -> Option<Seq<GrabRequest>> {
    match spec_parse(t, tok) {
        Some(c) => match spec_keycode_for(kbd, c.key) {
            Some(kc) => Some(
                Seq::new(
                    8,
                    |i: int| GrabRequest {
                        keycode: kc as u8,
                        modifiers: (spec_grab_mask_list(m, m.spec_mask_to_x11(c.modifiers))[i]
                            as u16),
                    },
                ),
            ),
            None => None,
        },
        None => None,
    }
}

/// The grab plan of a token list: the alternatives' requests in order;
/// nothing as soon as one alternative fails.
pub open spec fn spec_root_plan(
    t: SymbolTable,
    kbd: Seq<u32>,
    m: Masks,
    toks: Seq<Seq<char>>,
) -> Option<Seq<GrabRequest>>
    decreases toks.len(),
{
    if toks.len() == 0 {
        Some(Seq::<GrabRequest>::empty())
    } else {
        match spec_token_grabs(t, kbd, m, toks[0]) {
            Some(g) => match spec_root_plan(t, kbd, m, toks.skip(1)) {
                Some(rest) => Some(g.add(rest)),
                None => None,
            },
            None => None,
        }
    }
}

/// Plans the grabbing of every root combination: for each comma-separated
/// alternative of each root key, in order, the eight lock-independent grab
/// requests.  Fails with `UnknownKey` on the first alternative whose key
/// name does not parse or has no keycode.
pub fn root_grab_requests(
    table: &SymbolTable,
    keycode_table: &Vec<u32>,
    masks: &Masks,
    config: &Config,
) -> (r: Result<Vec<GrabRequest>, Error>)
    requires
        keycode_table@.len() <= 256,
    ensures
        match r {
            Ok(v) => spec_root_plan(
                *table,
                keycode_table@,
                *masks,
                spec_all_tokens(config.map.entries@),
            ) == Some(v@),
            Err(e) => e == Error::UnknownKey && spec_root_plan(
                *table,
                keycode_table@,
                *masks,
                spec_all_tokens(config.map.entries@),
            ) is None,
        },
{
    let ghost all = spec_all_tokens(config.map.entries@);
    let mut v: Vec<GrabRequest> = Vec::new();
    let n = config.map.entries.len();
    let mut i: usize = 0;
    proof {
        assert(config.map.entries@.skip(0) =~= config.map.entries@);
        if spec_root_plan(*table, keycode_table@, *masks, all) is Some {
            assert(Seq::<GrabRequest>::empty().add(
                spec_root_plan(*table, keycode_table@, *masks, all)->0,
            ) =~= spec_root_plan(*table, keycode_table@, *masks, all)->0);
        }
    }
    while i < n
        invariant
            i <= n == config.map.entries@.len(),
            keycode_table@.len() <= 256,
            all == spec_all_tokens(config.map.entries@),
            spec_root_plan(
                *table,
                keycode_table@,
                *masks,
                spec_all_tokens(config.map.entries@.skip(i as int)),
            ) matches Some(rest) ==> spec_root_plan(*table, keycode_table@, *masks, all)
                == Some(v@.add(rest)),
            spec_root_plan(
                *table,
                keycode_table@,
                *masks,
                spec_all_tokens(config.map.entries@.skip(i as int)),
            ) is None ==> spec_root_plan(*table, keycode_table@, *masks, all) is None,
        decreases n - i,
    {
        let toks = split_str(config.map.entries[i].key.as_str(), ',');
        let ghost tail = spec_all_tokens(config.map.entries@.skip(i + 1));
        proof {
            assert(config.map.entries@.skip(i as int)[0] == config.map.entries@[i as int]);
            assert(config.map.entries@.skip(i as int).skip(1) =~= config.map.entries@.skip(
                i + 1,
            ));
            assert(spec_all_tokens(config.map.entries@.skip(i as int)) =~~= views(toks@).add(
                tail,
            ));
            assert(views(toks@).skip(0) =~= views(toks@));
            assert(views(toks@).skip(0).add(tail) =~~= spec_all_tokens(
                config.map.entries@.skip(i as int),
            ));
        }
        let tn = toks.len();
        let mut j: usize = 0;
        while j < tn
            invariant
                j <= tn == toks@.len(),
                keycode_table@.len() <= 256,
                all == spec_all_tokens(config.map.entries@),
                tail == spec_all_tokens(config.map.entries@.skip(i + 1)),
                spec_root_plan(
                    *table,
                    keycode_table@,
                    *masks,
                    views(toks@).skip(j as int).add(tail),
                ) matches Some(rest) ==> spec_root_plan(*table, keycode_table@, *masks, all)
                    == Some(v@.add(rest)),
                spec_root_plan(
                    *table,
                    keycode_table@,
                    *masks,
                    views(toks@).skip(j as int).add(tail),
                ) is None ==> spec_root_plan(*table, keycode_table@, *masks, all) is None,
            decreases tn - j,
        {
            let ghost chain = views(toks@).skip(j as int).add(tail);
            proof {
                assert(chain[0] == views(toks@)[j as int]);
                assert(chain.len() > 0);
                assert(chain.skip(1) =~~= views(toks@).skip(j + 1).add(tail));
            }
            let c = match Combination::parse(table, toks[j].as_str()) {
                Ok(c) => c,
                Err(_) => {
                    proof {
                        assert(spec_token_grabs(
                            *table,
                            keycode_table@,
                            *masks,
                            chain[0],
                        ) is None);
                        assert(spec_root_plan(*table, keycode_table@, *masks, chain) is None);
                    }
                    return Err(Error::UnknownKey);
                },
            };
            let g8 = match grab_requests(keycode_table, masks, c.key, c.modifiers) {
                Ok(g8) => g8,
                Err(_) => {
                    proof {
                        assert(spec_token_grabs(
                            *table,
                            keycode_table@,
                            *masks,
                            chain[0],
                        ) is None);
                        assert(spec_root_plan(*table, keycode_table@, *masks, chain) is None);
                    }
                    return Err(Error::UnknownKey);
                },
            };
            let ghost vprev = v@;
            let ghost g = spec_token_grabs(*table, keycode_table@, *masks, chain[0])->0;
            proof {
                assert(g8@ =~= g);
            }
            let mut moved = g8;
            v.append(&mut moved);
            proof {
                assert(v@ == vprev.add(g));
                if spec_root_plan(*table, keycode_table@, *masks, chain.skip(1)) is Some {
                    let rest = spec_root_plan(*table, keycode_table@, *masks, chain.skip(1))->0;
                    assert(spec_root_plan(*table, keycode_table@, *masks, chain) == Some(
                        g.add(rest),
                    ));
                    assert(vprev.add(g.add(rest)) =~= v@.add(rest));
                }
            }
            j = j + 1;
        }
        proof {
            assert(views(toks@).skip(tn as int) =~= Seq::<Seq<char>>::empty());
            assert(Seq::<Seq<char>>::empty().add(tail) =~~= tail);
        }
        i = i + 1;
    }
    proof {
        assert(config.map.entries@.skip(n as int) =~= Seq::<MapEntry>::empty());
        if spec_root_plan(*table, keycode_table@, *masks, all) is Some {
            assert(v@.add(Seq::<GrabRequest>::empty()) =~= v@);
        }
    }
    Ok(v)
}

} // verus!
