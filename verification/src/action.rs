//! The hierarchical action tree: the nested map of key combination text to
//! `(title, action)` payloads, the flattened operation list, and first-match
//! lookup over a node's entries.

use vstd::prelude::*;

verus! {

/// The literal configuration key text.  It may join several alternative
/// combinations with commas: `"a,b"` lets either combination reach the
/// same node.
pub type KeyCombination = String;

/// The text of a shell command line.
pub type ShellScript = String;

/// A flattened, executable operation.
pub enum Op {
    Execute(ShellScript),
    Reload,
    Die,
}

/// The mathematical shape of an operation.
pub enum OpView {
    Execute(Seq<char>),
    Reload,
    Die,
}

impl View for Op {
    type V = OpView;

    open spec fn view(&self) -> OpView {
        match self {
            Op::Execute(s) => OpView::Execute(s@),
            Op::Reload => OpView::Reload,
            Op::Die => OpView::Die,
        }
    }
}

/// The payload at every node of the tree: a display title, possibly empty,
/// and the action taken when the node is reached.
pub struct ActionDesc {
    pub title: String,
    pub action: Action,
}

/// One entry of a nested map: a key combination text and its payload.
pub struct MapEntry {
    pub key: KeyCombination,
    pub desc: ActionDesc,
}

/// A tree node's mapping of key combination text to payload, in a fixed
/// entry order.
pub struct KeyMap {
    pub entries: Vec<MapEntry>,
}

/// An action: a terminal operation, an ordered operation list, or a
/// further nested map.
pub enum Action {
    Execute(ShellScript),
    Reload,
    Die,
    List(Vec<Op>),
    Submap(KeyMap),
}

/// The first entry whose key text equals the given key, if any.
pub open spec fn spec_lookup(entries: Seq<MapEntry>, key: Seq<char>) -> Option<ActionDesc>
    decreases entries.len(),
{
    if entries.len() == 0 {
        None
    } else if entries[0].key@ == key {
        Some(entries[0].desc)
    } else {
        spec_lookup(entries.skip(1), key)
    }
}

/// A first-match lookup passes over a matchless prefix.
pub proof fn lemma_lookup_skip(entries: Seq<MapEntry>, i: int, key: Seq<char>)
    requires
        0 <= i <= entries.len(),
        forall|j: int| 0 <= j < i ==> entries[j].key@ != key,
    ensures
        spec_lookup(entries, key) == spec_lookup(entries.skip(i), key),
    decreases i,
{
    if i > 0 {
        assert(entries.skip(1).skip(i - 1) =~= entries.skip(i));
        lemma_lookup_skip(entries.skip(1), i - 1, key);
    } else {
        assert(entries.skip(0) =~= entries);
    }
}

impl KeyMap {
    /// An empty node.
    pub fn new() -> (r: KeyMap)
        ensures
            r.entries@.len() == 0,
    {
        KeyMap { entries: Vec::new() }
    }

    /// Finds the payload stored under a key text.
    pub fn lookup(&self, key: &str) -> (r: Option<&ActionDesc>)
        ensures
            match r {
                Some(d) => spec_lookup(self.entries@, key@) == Some(*d),
                None => spec_lookup(self.entries@, key@) is None,
            },
    {
        let n = self.entries.len();
        let mut i: usize = 0;
        while i < n
            invariant
                i <= n == self.entries@.len(),
                forall|j: int| 0 <= j < i ==> self.entries@[j].key@ != key@,
            decreases n - i,
        {
            if crate::strutil::string_eq(&self.entries[i].key, key) {
                proof {
                    lemma_lookup_skip(self.entries@, i as int, key@);
                }
                return Some(&self.entries[i].desc);
            }
            i = i + 1;
        }
        proof {
            lemma_lookup_skip(self.entries@, self.entries@.len() as int, key@);
        }
        None
    }

    /// Adds an entry at the end of the node.
    pub fn push(&mut self, key: KeyCombination, desc: ActionDesc)
        ensures
            final(self).entries@ == old(self).entries@.push(
                MapEntry { key, desc },
            ),
    {
        self.entries.push(MapEntry { key, desc });
    }
}

/// Copies an operation.
pub fn op_clone(o: &Op) -> (r: Op)
    ensures
        r@ == o@,
{
    match o {
        Op::Execute(e) => Op::Execute(e.clone()),
        Op::Reload => Op::Reload,
        Op::Die => Op::Die,
    }
}

/// The views of a sequence of operations.
pub open spec fn op_views(s: Seq<Op>) -> Seq<OpView> {
    s.map_values(|o: Op| o@)
}

/// The flattened operation list of an action: a terminal operation stands
/// alone, a list stands as it is, a nested map flattens to nothing.
pub open spec fn spec_op_list(a: Action) -> Seq<OpView> {
    match a {
        Action::Execute(e) => seq![OpView::Execute(e@)],
        Action::Reload => seq![OpView::Reload],
        Action::Die => seq![OpView::Die],
        Action::List(l) => op_views(l@),
        Action::Submap(_) => Seq::<OpView>::empty(),
    }
}

impl Action {
    /// The nested map of this action, where it is one.
    pub fn action_map(&self) -> (r: Option<&KeyMap>)
        ensures
            match self {
                Action::Submap(m) => r == Some(m),
                _ => r is None,
            },
    {
        match self {
            Action::Submap(m) => Some(m),
            _ => None,
        }
    }

    /// The flattened, executable form of this action.
    pub fn to_op_list(&self) -> (r: Vec<Op>)
        ensures
            op_views(r@) == spec_op_list(*self),
    {
        broadcast use vstd::seq_lib::group_seq_lib_default;

        let mut v: Vec<Op> = Vec::new();
        match self {
            Action::Execute(e) => {
                v.push(Op::Execute(e.clone()));
                proof {
                    assert(op_views(v@) =~= spec_op_list(*self));
                }
            },
            Action::Reload => {
                v.push(Op::Reload);
                proof {
                    assert(op_views(v@) =~= spec_op_list(*self));
                }
            },
            Action::Die => {
                v.push(Op::Die);
                proof {
                    assert(op_views(v@) =~= spec_op_list(*self));
                }
            },
            Action::List(l) => {
                let n = l.len();
                let mut i: usize = 0;
                while i < n
                    invariant
                        i <= n == l@.len(),
                        op_views(v@) =~= op_views(l@).take(i as int),
                    decreases n - i,
                {
                    let o = op_clone(&l[i]);
                    let ghost vprev = v@;
                    v.push(o);
                    proof {
                        assert(v@ == vprev.push(o));
                        assert(op_views(vprev.push(o)) =~= op_views(vprev).push(o@));
                        assert(op_views(l@).take(i + 1) =~= op_views(l@).take(i as int).push(
                            op_views(l@)[i as int],
                        ));
                        assert(op_views(l@)[i as int] == l@[i as int]@);
                        assert(op_views(v@) =~= op_views(l@).take(i + 1));
                    }
                    i = i + 1;
                }
                proof {
                    assert(op_views(l@).take(n as int) =~= op_views(l@));
                }
            },
            Action::Submap(_) => {
                proof {
                    assert(op_views(v@) =~= spec_op_list(*self));
                }
            },
        }
        v
    }
}

} // verus!
