//! The keycode table: the keycode-to-primary-keysym mapping loaded from
//! the windowing system's keyboard-mapping reply, and the reverse lookup
//! from a key symbol to the physical keycode that produces it.

use vstd::prelude::*;
use crate::keysym::KeySym;

verus! {

/// The number of keycodes the table covers at most.
pub const KEYCODE_SPACE: usize = 256;

/// The keycode table built from a keyboard-mapping reply: indices below
/// `min` are unassigned (zero), from `min` on each index holds the first
/// (group 0, shift level 0) symbol of that keycode, one chunk of `n`
/// reply symbols per keycode, capped at keycode 255.
pub open spec fn spec_keycode_table(min: nat, n: nat, syms: Seq<u32>) -> Seq<u32> {
    let chunks = (syms.len() + n - 1) / (n as int);
    let count = if chunks > 256 - min { 256 - min } else { chunks };
    Seq::new(min, |i: int| 0u32).add(Seq::new(count as nat, |j: int| syms[j * n]))
}

/// Loads the keycode-to-keysym table from a keyboard-mapping reply:
/// `min_keycode` is the lowest keycode the reply describes,
/// `keysyms_per_keycode` the reply's chunk size, and `keysyms` the flat
/// symbol list.
pub fn load_keycode_to_keysyms(
    min_keycode: u8,
    keysyms_per_keycode: u8,
    keysyms: &Vec<u32>,
) -> (r: Vec<u32>)
    requires
        keysyms_per_keycode > 0,
    ensures
        r@ == spec_keycode_table(
            min_keycode as nat,
            keysyms_per_keycode as nat,
            keysyms@,
        ),
        r@.len() <= 256,
{
    let min = min_keycode as usize;
    let n = keysyms_per_keycode as usize;
    let mut r: Vec<u32> = Vec::new();
    let mut i: usize = 0;
    while i < min
        invariant
            i <= min,
            r@ =~= Seq::new(i as nat, |k: int| 0u32),
        decreases min - i,
    {
        r.push(0);
        proof {
            assert(r@ =~= Seq::new((i + 1) as nat, |k: int| 0u32));
        }
        i = i + 1;
    }
    let ghost chunks = (keysyms@.len() + n - 1) / (n as int);
    let ghost count: int = if chunks > 256 - min { 256 - min } else { chunks };
    let mut j: usize = 0;
    let mut idx: usize = 0;
    proof {
        assert(r@ =~= Seq::new(min as nat, |k: int| 0u32).add(
            Seq::new(0nat, |k: int| keysyms@[k * n]),
        ));
        assert(0 <= chunks) by (nonlinear_arith)
            requires
                n > 0,
                chunks == (keysyms@.len() + n - 1) / (n as int),
                keysyms@.len() >= 0,
        ;
    }
    while j < 256 - min && idx < keysyms.len()
        invariant
            n == keysyms_per_keycode as nat,
            min == min_keycode as nat,
            min < 256,
            n > 0,
            n <= 255,
            j <= 256,
            idx == j * n,
            j <= count,
            count == (if chunks > 256 - min { 256 - min } else { chunks }),
            chunks == (keysyms@.len() + n - 1) / (n as int),
            r@ =~= Seq::new(min as nat, |k: int| 0u32).add(
                Seq::new(j as nat, |k: int| keysyms@[k * n]),
            ),
        decreases 256 - min - j,
    {
        r.push(keysyms[idx]);
        proof {
            assert(j < chunks) by (nonlinear_arith)
                requires
                    n > 0,
                    idx == j * n,
                    idx < keysyms@.len(),
                    chunks == (keysyms@.len() + n - 1) / (n as int),
            ;
            assert(idx + n == (j + 1) * n) by (nonlinear_arith)
                requires
                    idx == j * n,
            ;
            assert(idx <= 255 * 255) by (nonlinear_arith)
                requires
                    idx == j * n,
                    0 <= j < 256,
                    0 < n <= 255,
            ;
            assert(r@ =~= Seq::new(min as nat, |k: int| 0u32).add(
                Seq::new((j + 1) as nat, |k: int| keysyms@[k * n]),
            ));
        }
        j = j + 1;
        idx = idx + n;
    }
    proof {
        if j < 256 - min {
            // the symbol list ran out: every chunk is in
            assert(idx >= keysyms@.len());
            assert(j >= chunks) by (nonlinear_arith)
                requires
                    n > 0,
                    idx == j * n,
                    idx >= keysyms@.len(),
                    chunks == (keysyms@.len() + n - 1) / (n as int),
            ;
            assert(j == count);
        } else {
            assert(j == 256 - min);
            assert(j == count);
        }
        assert(r@ =~= spec_keycode_table(min as nat, n as nat, keysyms@));
    }
    r
}

/// The physical keycode of a symbol: the highest table index holding the
/// symbol, as the daemon's reverse map, written last, would answer.
pub open spec fn spec_keycode_for(table: Seq<u32>, sym: u32) -> Option<int>
    decreases table.len(),
{
    if table.len() == 0 {
        None
    } else if table.last() == sym {
        Some(table.len() - 1)
    } else {
        spec_keycode_for(table.drop_last(), sym)
    }
}

/// Finds the physical keycode that produces a symbol.
pub fn keycode_for(table: &Vec<u32>, sym: KeySym) -> (r: Option<u8>)
    requires
        table@.len() <= 256,
    ensures
        match r {
            Some(kc) => spec_keycode_for(table@, sym) == Some(kc as int),
            None => spec_keycode_for(table@, sym) is None,
        },
{
    let mut i: usize = table.len();
    proof {
        assert(table@.take(table@.len() as int) =~= table@);
    }
    while i > 0
        invariant
            i <= table@.len() <= 256,
            spec_keycode_for(table@, sym) == spec_keycode_for(table@.take(i as int), sym),
        decreases i,
    {
        proof {
            assert(table@.take(i as int).last() == table@[i - 1]);
            assert(table@.take(i as int).drop_last() =~= table@.take(i - 1));
        }
        if table[i - 1] == sym {
            return Some((i - 1) as u8);
        }
        i = i - 1;
    }
    proof {
        assert(table@.take(0) =~= Seq::<u32>::empty());
    }
    None
}

/// The primary symbol of a keycode; zero where the table does not cover
/// the keycode, as an unassigned table slot would hold.
pub fn keysym_at(table: &Vec<u32>, keycode: u8) -> (r: KeySym)
    ensures
        r == (if (keycode as int) < table@.len() {
            table@[keycode as int]
        } else {
            0u32
        }),
{
    let kc = keycode as usize;
    if kc < table.len() {
        table[kc]
    } else {
        0
    }
}

} // verus!
