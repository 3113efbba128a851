//! The chord state machine: the heart of the dispatcher.  It owns the
//! configuration and the navigation state, classifies key presses against
//! the active map, and decides whether to descend, execute, or revert —
//! emitting every side effect (overlay, spawn, reload, focus) as a plain
//! request for the unverified shell around the library to perform.

use vstd::prelude::*;
use vstd::pervasive::{arbitrary, unreached};
use crate::action::{Action, ActionDesc, KeyMap, MapEntry, Op, op_views, spec_lookup,
    spec_op_list};
use crate::combination::{Combination, Modifiers, spec_format};
use crate::config::Config;
use crate::error::Error;
use crate::keysym::{KeySym, SymbolTable, is_modifier, spec_is_modifier};
use crate::listing::{overlay_text, spec_overlay_text};
use crate::masks::Masks;
use crate::strutil::{spec_split, split_str, string_eq, views};

verus! {

/// A classified windowing event, produced by a single classification step
/// at the boundary; the engine never sees the raw protocol envelope.
pub enum Event {
    /// A key press, already translated to a key symbol and a state mask
    /// with the lock bits removed.
    KeyPress { key: KeySym, state: u32 },
    ConfigureNotify { window: u32 },
    MapNotify { window: u32 },
    UnmapNotify { window: u32 },
    Expose { window: u32 },
    FocusIn { window: u32 },
    FocusOut { window: u32 },
    DestroyNotify { window: u32 },
    Other,
}

/// A side effect the engine asks its surroundings to perform.
pub enum Effect {
    /// Destroy the overlay window.
    DestroyOverlay { window: u32 },
    /// Destroy the error overlay window.
    DestroyErrorOverlay { window: u32 },
    /// Create the overlay showing this text, then report the new window
    /// through [`Engine::overlay_created`].
    ShowOverlay { text: String },
    /// Update the existing overlay to show this text.
    UpdateOverlay { window: u32, text: String },
    /// Create the error overlay showing this text, then report it through
    /// [`Engine::error_overlay_created`].
    ShowErrorOverlay { text: String },
    /// Reap terminated children before the next spawn.
    ReapChildren,
    /// Spawn this script through a command shell and track the child.
    Spawn { script: String },
    /// Re-read the configuration, then report the result through
    /// [`Engine::finish_reload_ok`] or [`Engine::finish_reload_err`].
    RequestReload,
    /// Redraw this window.
    Redraw { window: u32 },
    /// Give the overlay the input focus.
    FocusOverlay { window: u32 },
    /// Restore the input focus saved before the overlay was opened.
    RestoreFocus { window: u32, revert_to: u8 },
}

/// The mathematical shape of an effect.
pub enum EffectView {
    DestroyOverlay(u32),
    DestroyErrorOverlay(u32),
    ShowOverlay(Seq<char>),
    UpdateOverlay(u32, Seq<char>),
    ShowErrorOverlay(Seq<char>),
    ReapChildren,
    Spawn(Seq<char>),
    RequestReload,
    Redraw(u32),
    FocusOverlay(u32),
    RestoreFocus(u32, u8),
}

impl View for Effect {
    type V = EffectView;

    open spec fn view(&self) -> EffectView {
        match self {
            Effect::DestroyOverlay { window } => EffectView::DestroyOverlay(*window),
            Effect::DestroyErrorOverlay { window } => EffectView::DestroyErrorOverlay(*window),
            Effect::ShowOverlay { text } => EffectView::ShowOverlay(text@),
            Effect::UpdateOverlay { window, text } => EffectView::UpdateOverlay(*window, text@),
            Effect::ShowErrorOverlay { text } => EffectView::ShowErrorOverlay(text@),
            Effect::ReapChildren => EffectView::ReapChildren,
            Effect::Spawn { script } => EffectView::Spawn(script@),
            Effect::RequestReload => EffectView::RequestReload,
            Effect::Redraw { window } => EffectView::Redraw(*window),
            Effect::FocusOverlay { window } => EffectView::FocusOverlay(*window),
            Effect::RestoreFocus { window, revert_to } => EffectView::RestoreFocus(
                *window,
                *revert_to,
            ),
        }
    }
}

/// The views of a list of effects.
pub open spec fn eff_views(s: Seq<Effect>) -> Seq<EffectView> {
    s.map_values(|e: Effect| e@)
}

/// Alias resolution: scanning the entries in order, a combination text
/// that equals one comma-separated alternative of an entry's key is
/// rewritten to that entry's full key text.
pub open spec fn spec_resolve_alias(entries: Seq<MapEntry>, s: Seq<char>) -> Seq<char>
    decreases entries.len(),
{
    if entries.len() == 0 {
        s
    } else {
        let s2 = if spec_split(entries[0].key@, ',').contains(s) {
            entries[0].key@
        } else {
            s
        };
        spec_resolve_alias(entries.skip(1), s2)
    }
}

/// Whether one of the held strings equals the given text.
fn views_contain(v: &Vec<String>, x: &str) -> (r: bool)
    ensures
        r == views(v@).contains(x@),
{
    let n = v.len();
    let mut i: usize = 0;
    while i < n
        invariant
            i <= n == v@.len(),
            forall|j: int| 0 <= j < i ==> views(v@)[j] != x@,
        decreases n - i,
    {
        if string_eq(&v[i], x) {
            assert(views(v@)[i as int] == x@);
            return true;
        }
        i = i + 1;
    }
    assert(!views(v@).contains(x@));
    false
}

/// Rewrites a combination text through the alias index of a node.
fn resolve_alias(m: &KeyMap, s: String) -> (r: String)
    ensures
        r@ == spec_resolve_alias(m.entries@, s@),
{
    let ghost s0 = s@;
    let mut cur = s;
    let n = m.entries.len();
    let mut i: usize = 0;
    proof {
        assert(m.entries@.skip(0) =~= m.entries@);
    }
    while i < n
        invariant
            i <= n == m.entries@.len(),
            spec_resolve_alias(m.entries@, s0) == spec_resolve_alias(
                m.entries@.skip(i as int),
                cur@,
            ),
        decreases n - i,
    {
        proof {
            assert(m.entries@.skip(i as int)[0] == m.entries@[i as int]);
            assert(m.entries@.skip(i as int).skip(1) =~= m.entries@.skip(i + 1));
        }
        let toks = split_str(m.entries[i].key.as_str(), ',');
        if views_contain(&toks, cur.as_str()) {
            cur = m.entries[i].key.clone();
        }
        i = i + 1;
    }
    proof {
        assert(m.entries@.skip(n as int) =~= Seq::<MapEntry>::empty());
    }
    cur
}

/// The views of the navigation path.
pub open spec fn spec_path_views(p: Seq<String>) -> Seq<Seq<char>> {
    p.map_values(|s: String| s@)
}

/// The node a path reaches from a root node: each path element must be
/// found in the current node and hold a nested map.
pub open spec fn spec_map_at(
    entries: Seq<MapEntry>,
    path: Seq<Seq<char>>,
) -> Option<Seq<MapEntry>>
    decreases path.len(),
{
    if path.len() == 0 {
        Some(entries)
    } else {
        match spec_lookup(entries, path[0]) {
            Some(desc) => match desc.action {
                Action::Submap(m) => spec_map_at(m.entries@, path.skip(1)),
                _ => None,
            },
            None => None,
        }
    }
}

/// Walking a concatenated path is walking its parts in turn.
pub proof fn lemma_map_at_append(entries: Seq<MapEntry>, a: Seq<Seq<char>>, b: Seq<Seq<char>>)
    ensures
        spec_map_at(entries, a.add(b)) == (match spec_map_at(entries, a) {
            Some(cur) => spec_map_at(cur, b),
            None => None::<Seq<MapEntry>>,
        }),
    decreases a.len(),
{
    if a.len() == 0 {
        assert(a.add(b) =~= b);
    } else {
        assert(a.add(b)[0] == a[0]);
        assert(a.add(b).len() > 0);
        assert(a.add(b).skip(1) =~= a.skip(1).add(b));
        match spec_lookup(entries, a[0]) {
            Some(desc) => match desc.action {
                Action::Submap(m) => {
                    lemma_map_at_append(m.entries@, a.skip(1), b);
                },
                _ => {},
            },
            None => {},
        }
    }
}

/// What a terminal operation list asks for: each `Execute` first reaps
/// terminated children and then spawns; a `Reload` requests the reload and
/// ends the list; a `Die` asks for nothing here (it stops the engine).
pub open spec fn spec_op_effects(ops: Seq<crate::action::OpView>) -> Seq<EffectView>
    decreases ops.len(),
{
    if ops.len() == 0 {
        Seq::<EffectView>::empty()
    } else {
        match ops[0] {
            crate::action::OpView::Execute(s) => seq![
                EffectView::ReapChildren,
                EffectView::Spawn(s),
            ].add(spec_op_effects(ops.skip(1))),
            crate::action::OpView::Reload => seq![EffectView::RequestReload],
            crate::action::OpView::Die => spec_op_effects(ops.skip(1)),
        }
    }
}

/// Whether a `Die` is reached before the first `Reload` ends the list.
pub open spec fn spec_op_died(ops: Seq<crate::action::OpView>) -> bool
    decreases ops.len(),
{
    if ops.len() == 0 {
        false
    } else {
        match ops[0] {
            crate::action::OpView::Execute(_) => spec_op_died(ops.skip(1)),
            crate::action::OpView::Reload => false,
            crate::action::OpView::Die => true,
        }
    }
}

/// The effects of reverting to the root: close a live overlay.
pub open spec fn spec_revert_effects(overlay: Option<u32>) -> Seq<EffectView> {
    match overlay {
        Some(w) => seq![EffectView::DestroyOverlay(w)],
        None => Seq::<EffectView>::empty(),
    }
}

/// What one key press does: the navigation path, the running flag, and
/// the requested effects after the press.
pub struct PressOutcome {
    pub path: Seq<Seq<char>>,
    pub running: bool,
    pub effects: Seq<EffectView>,
}

/// The transition of the chord state machine on one key press, over the
/// active map `cur`: a bare modifier is ignored; otherwise the press is
/// formatted canonically, rewritten through the alias index, and looked
/// up — descending into a nested map, executing a terminal operation list
/// and reverting, or just reverting when nothing matches.  In
/// external-root-key mode every revert also ends the run.
pub open spec fn spec_on_key_press(
    t: SymbolTable,
    m: Masks,
    cur: Seq<MapEntry>,
    path: Seq<Seq<char>>,
    running: bool,
    external: bool,
    overlay: Option<u32>,
    key: u32,
    state: u32,
) -> PressOutcome {
    if spec_is_modifier(t, key) {
        PressOutcome { path, running, effects: Seq::<EffectView>::empty() }
    } else {
        let mods = m.spec_x11_to_mask(state);
        let s = spec_resolve_alias(cur, spec_format(t, Combination { key, modifiers: mods }));
        match spec_lookup(cur, s) {
            None => PressOutcome {
                path: Seq::<Seq<char>>::empty(),
                running: running && !external,
                effects: spec_revert_effects(overlay),
            },
            Some(desc) => match desc.action {
                Action::Submap(m2) => PressOutcome {
                    path: path.push(s),
                    running,
                    effects: match overlay {
                        Some(w) => seq![
                            EffectView::UpdateOverlay(w, spec_overlay_text(m2.entries@)),
                        ],
                        None => seq![EffectView::ShowOverlay(spec_overlay_text(m2.entries@))],
                    },
                },
                _ => {
                    let ops = spec_op_list(desc.action);
                    PressOutcome {
                        path: Seq::<Seq<char>>::empty(),
                        running: running && !spec_op_died(ops) && !external,
                        effects: spec_op_effects(ops).add(spec_revert_effects(overlay)),
                    }
                },
            },
        }
    }
}

/// The inner classification of a key press against the active map.
enum PressStep {
    NotFound,
    Down(String),
    Terminal(Vec<Op>),
}

/// The chord state machine.  It owns the configuration and the navigation
/// state; the active map is the node its path reaches from the root, so a
/// reload can never leave it dangling.
pub struct Engine {
    pub config: Config,
    /// The keys from the root to the active map.
    pub path: Vec<String>,
    /// False once the run should end; the loop still waits for a live
    /// overlay to close.
    pub running: bool,
    /// External-root-key mode: no self-managed global grab, the run ends
    /// when a chord resolves or aborts.
    pub external_root: bool,
    /// The live overlay window, if one exists.
    pub overlay: Option<u32>,
    /// The live error overlay window, if one exists.
    pub error_overlay: Option<u32>,
    /// When the error overlay was opened, for its auto-dismiss timer.
    pub error_start: Option<u64>,
    /// The input focus to restore when the overlay closes.
    pub prev_focus: Option<(u32, u8)>,
    /// When the overlay lost the input focus, for the liveness check of
    /// external-root-key mode.
    pub last_focus_out: Option<u64>,
}

impl Engine {
    /// The navigation path always reaches a node of the configuration.
    pub open spec fn wf(self) -> bool {
        spec_map_at(self.config.map.entries@, spec_path_views(self.path@)) is Some
    }

    /// The entries of the active map.
    pub open spec fn spec_current(self) -> Seq<MapEntry> {
        spec_map_at(self.config.map.entries@, spec_path_views(self.path@))->0
    }

    /// A fresh engine at the root of its configuration.
    pub fn new(config: Config, external_root: bool) -> (r: Engine)
        ensures
            r.wf(),
            r.config == config,
            r.path@.len() == 0,
            r.running,
            r.external_root == external_root,
            r.overlay is None,
            r.error_overlay is None,
            r.error_start is None,
            r.prev_focus is None,
            r.last_focus_out is None,
    {
        let e = Engine {
            config,
            path: Vec::new(),
            running: true,
            external_root,
            overlay: None,
            error_overlay: None,
            error_start: None,
            prev_focus: None,
            last_focus_out: None,
        };
        proof {
            assert(spec_path_views(e.path@) =~= Seq::<Seq<char>>::empty());
        }
        e
    }

    /// The active map: the node the path reaches.
    pub fn current_map(&self) -> (r: &KeyMap)
        requires
            self.wf(),
        ensures
            r.entries@ == self.spec_current(),
    {
        let ghost pv = spec_path_views(self.path@);
        let mut cur: &KeyMap = &self.config.map;
        let n = self.path.len();
        let mut i: usize = 0;
        proof {
            assert(pv.take(0) =~= Seq::<Seq<char>>::empty());
        }
        while i < n
            invariant
                i <= n == self.path@.len(),
                self.wf(),
                pv == spec_path_views(self.path@),
                spec_map_at(self.config.map.entries@, pv.take(i as int)) == Some(cur.entries@),
            decreases n - i,
        {
            proof {
                assert(pv =~= pv.take(i as int).add(pv.skip(i as int)));
                lemma_map_at_append(
                    self.config.map.entries@,
                    pv.take(i as int),
                    pv.skip(i as int),
                );
                assert(spec_map_at(cur.entries@, pv.skip(i as int)) is Some);
                assert(pv.skip(i as int)[0] == pv[i as int]);
                assert(pv.skip(i as int).skip(1) =~= pv.skip(i + 1));
                assert(pv.take(i + 1) =~= pv.take(i as int).push(pv[i as int]));
                lemma_map_at_snoc(self.config.map.entries@, pv.take(i as int), pv[i as int]);
            }
            let desc = match cur.lookup(self.path[i].as_str()) {
                Some(d) => d,
                None => unreached(),
            };
            cur = match &desc.action {
                Action::Submap(m) => m,
                _ => unreached(),
            };
            i = i + 1;
        }
        proof {
            assert(pv.take(n as int) =~= pv);
        }
        cur
    }

    /// Whether the event loop should keep going: the engine runs, or an
    /// overlay still has to close.
    pub fn should_continue(&self) -> (r: bool)
        ensures
            r == (self.running || self.overlay is Some),
    {
        self.running || self.overlay.is_some()
    }

    /// Handles one key press.
    pub fn on_key_press(
        &mut self,
        table: &SymbolTable,
        masks: &Masks,
        key: KeySym,
        state: u32,
    ) -> (r: Vec<Effect>)
        requires
            old(self).wf(),
            table.has_modifier_names(),
        ensures
            final(self).wf(),
            ({
                let o = spec_on_key_press(
                    *table,
                    *masks,
                    old(self).spec_current(),
                    spec_path_views(old(self).path@),
                    old(self).running,
                    old(self).external_root,
                    old(self).overlay,
                    key,
                    state,
                );
                &&& spec_path_views(final(self).path@) == o.path
                &&& final(self).running == o.running
                &&& eff_views(r@) == o.effects
            }),
            final(self).config == old(self).config,
            final(self).external_root == old(self).external_root,
            final(self).overlay == old(self).overlay,
            final(self).error_overlay == old(self).error_overlay,
            final(self).error_start == old(self).error_start,
            final(self).prev_focus == old(self).prev_focus,
            final(self).last_focus_out == old(self).last_focus_out,
    {
        let mut effects: Vec<Effect> = Vec::new();
        proof {
            assert(eff_views(effects@) =~= Seq::<EffectView>::empty());
        }
        if is_modifier(table, key) {
            return effects;
        }
        let mods = masks.x11_to_mask(state);
        let comb = Combination { key, modifiers: mods };
        let s0 = comb.format(table);

        let ghost curv = self.spec_current();
        let (resolved, step) = {
            let cur: &KeyMap = self.current_map();
            let s1 = resolve_alias(cur, s0);
            let step = match cur.lookup(s1.as_str()) {
                None => PressStep::NotFound,
                Some(desc) => match desc.action.action_map() {
                    Some(m2) => PressStep::Down(overlay_text(m2)),
                    None => PressStep::Terminal(desc.action.to_op_list()),
                },
            };
            (s1, step)
        };

        match step {
            PressStep::NotFound => {
                match self.overlay {
                    Some(w) => effects.push(Effect::DestroyOverlay { window: w }),
                    None => {},
                }
                if self.external_root {
                    self.running = false;
                }
                self.path = Vec::new();
                proof {
                    assert(spec_path_views(self.path@) =~= Seq::<Seq<char>>::empty());
                    assert(eff_views(effects@) =~= spec_revert_effects(old(self).overlay));
                }
            },
            PressStep::Down(text) => {
                let ghost m2 = match spec_lookup(curv, resolved@)->0.action {
                    Action::Submap(m2) => m2,
                    _ => arbitrary(),
                };
                match self.overlay {
                    Some(w) => effects.push(Effect::UpdateOverlay { window: w, text }),
                    None => effects.push(Effect::ShowOverlay { text }),
                }
                proof {
                    lemma_map_at_snoc(
                        self.config.map.entries@,
                        spec_path_views(self.path@),
                        resolved@,
                    );
                }
                let ghost pprev = self.path@;
                self.path.push(resolved);
                proof {
                    assert(spec_path_views(self.path@) =~= spec_path_views(pprev).push(
                        self.path@.last()@,
                    ));
                    match self.overlay {
                        Some(w) => {
                            assert(eff_views(effects@) =~= seq![
                                EffectView::UpdateOverlay(w, spec_overlay_text(m2.entries@)),
                            ]);
                        },
                        None => {
                            assert(eff_views(effects@) =~= seq![
                                EffectView::ShowOverlay(spec_overlay_text(m2.entries@)),
                            ]);
                        },
                    }
                }
            },
            PressStep::Terminal(ops) => {
                let ghost ov = op_views(ops@);
                let n = ops.len();
                let mut i: usize = 0;
                let mut died = false;
                let mut stopped = false;
                proof {
                    assert(ov.skip(0) =~= ov);
                    assert(eff_views(effects@).add(spec_op_effects(ov)) =~= spec_op_effects(
                        ov,
                    ));
                }
                while i < n && !stopped
                    invariant
                        i <= n == ops@.len(),
                        ov == op_views(ops@),
                        stopped ==> eff_views(effects@) == spec_op_effects(ov) && died
                            == spec_op_died(ov),
                        !stopped ==> spec_op_effects(ov) == eff_views(effects@).add(
                            spec_op_effects(ov.skip(i as int)),
                        ) && spec_op_died(ov) == (died || spec_op_died(ov.skip(i as int))),
                    decreases n - i,
                {
                    proof {
                        assert(ov.skip(i as int)[0] == ov[i as int]);
                        assert(ov[i as int] == ops@[i as int]@);
                        assert(ov.skip(i as int).skip(1) =~= ov.skip(i + 1));
                    }
                    let ghost eprev = effects@;
                    match &ops[i] {
                        Op::Execute(e) => {
                            effects.push(Effect::ReapChildren);
                            effects.push(Effect::Spawn { script: e.clone() });
                            proof {
                                assert(eff_views(effects@) =~= eff_views(eprev).add(seq![
                                    EffectView::ReapChildren,
                                    EffectView::Spawn(e@),
                                ]));
                                assert(eff_views(eprev).add(seq![
                                    EffectView::ReapChildren,
                                    EffectView::Spawn(e@),
                                ]).add(spec_op_effects(ov.skip(i + 1))) =~= eff_views(
                                    eprev,
                                ).add(seq![
                                    EffectView::ReapChildren,
                                    EffectView::Spawn(e@),
                                ].add(spec_op_effects(ov.skip(i + 1)))));
                            }
                        },
                        Op::Reload => {
                            effects.push(Effect::RequestReload);
                            stopped = true;
                            proof {
                                assert(eff_views(effects@) =~= eff_views(eprev).add(seq![
                                    EffectView::RequestReload,
                                ]));
                                assert(spec_op_effects(ov.skip(i as int)) == seq![
                                    EffectView::RequestReload,
                                ]);
                            }
                        },
                        Op::Die => {
                            died = true;
                        },
                    }
                    i = i + 1;
                }
                proof {
                    if !stopped {
                        assert(ov.skip(n as int) =~= Seq::<crate::action::OpView>::empty());
                        assert(eff_views(effects@).add(Seq::<EffectView>::empty())
                            =~= eff_views(effects@));
                    }
                    assert(eff_views(effects@) == spec_op_effects(ov));
                    assert(died == spec_op_died(ov));
                }
                let ghost emid = effects@;
                if died {
                    self.running = false;
                }
                match self.overlay {
                    Some(w) => {
                        effects.push(Effect::DestroyOverlay { window: w });
                        proof {
                            assert(eff_views(effects@) =~= eff_views(emid).add(
                                spec_revert_effects(old(self).overlay),
                            ));
                        }
                    },
                    None => {
                        proof {
                            assert(eff_views(effects@) =~= eff_views(emid).add(
                                spec_revert_effects(old(self).overlay),
                            ));
                        }
                    },
                }
                if self.external_root {
                    self.running = false;
                }
                self.path = Vec::new();
                proof {
                    assert(spec_path_views(self.path@) =~= Seq::<Seq<char>>::empty());
                }
            },
        }
        effects
    }
}

/// Whether the focus-loss liveness check fires: in external-root-key mode,
/// an overlay that lost the input focus more than 30 ms ago ends the run.
pub open spec fn spec_focus_fire(e: Engine, now: u64) -> bool {
    &&& match e.last_focus_out {
        Some(t) => now >= t && now - t > 30,
        None => false,
    }
    &&& e.overlay is Some
    &&& e.external_root
}

/// Whether the error overlay's auto-dismiss timer has elapsed: 1000 ms
/// from when the error was shown, and not before.
pub open spec fn spec_error_fire(e: Engine, now: u64) -> bool {
    match e.error_start {
        Some(t) => now >= t && now - t >= 1000,
        None => false,
    }
}

impl Engine {
    /// One pass of the timer checks, run between polls: the focus-loss
    /// liveness check of external-root-key mode, then the error overlay's
    /// auto-dismiss timer.
    pub fn tick(&mut self, now_ms: u64) -> (r: Vec<Effect>)
        ensures
            final(self).config == old(self).config,
            final(self).path == old(self).path,
            final(self).external_root == old(self).external_root,
            final(self).overlay == old(self).overlay,
            final(self).error_overlay == old(self).error_overlay,
            final(self).prev_focus == old(self).prev_focus,
            final(self).last_focus_out == old(self).last_focus_out,
            final(self).running == (old(self).running && !spec_focus_fire(*old(self), now_ms)),
            final(self).error_start == (if spec_error_fire(*old(self), now_ms) {
                None
            } else {
                old(self).error_start
            }),
            eff_views(r@) == (if spec_focus_fire(*old(self), now_ms) {
                seq![EffectView::DestroyOverlay(old(self).overlay->0)]
            } else {
                Seq::<EffectView>::empty()
            }).add(
                if spec_error_fire(*old(self), now_ms) && old(self).error_overlay is Some {
                    seq![EffectView::DestroyErrorOverlay(old(self).error_overlay->0)]
                } else {
                    Seq::<EffectView>::empty()
                },
            ),
    {
        let mut effects: Vec<Effect> = Vec::new();
        let ghost e0 = *self;
        match self.last_focus_out {
            Some(t) => {
                if now_ms >= t && now_ms - t > 30 {
                    match self.overlay {
                        Some(w) => {
                            if self.external_root {
                                effects.push(Effect::DestroyOverlay { window: w });
                                self.running = false;
                            }
                        },
                        None => {},
                    }
                }
            },
            None => {},
        }
        let ghost efocus = effects@;
        proof {
            assert(eff_views(efocus) =~= (if spec_focus_fire(e0, now_ms) {
                seq![EffectView::DestroyOverlay(e0.overlay->0)]
            } else {
                Seq::<EffectView>::empty()
            }));
        }
        match self.error_start {
            Some(t) => {
                if now_ms >= t && now_ms - t >= 1000 {
                    match self.error_overlay {
                        Some(w) => {
                            effects.push(Effect::DestroyErrorOverlay { window: w });
                        },
                        None => {},
                    }
                    self.error_start = None;
                }
            },
            None => {},
        }
        proof {
            assert(eff_views(effects@) =~= eff_views(efocus).add(
                if spec_error_fire(e0, now_ms) && e0.error_overlay is Some {
                    seq![EffectView::DestroyErrorOverlay(e0.error_overlay->0)]
                } else {
                    Seq::<EffectView>::empty()
                },
            ));
        }
        effects
    }

    /// Records the overlay window the shell created for a
    /// [`Effect::ShowOverlay`] request, with the input focus it saved
    /// just before.
    pub fn overlay_created(&mut self, window: u32, focus: u32, revert_to: u8)
        ensures
            final(self).overlay == Some(window),
            final(self).prev_focus == Some((focus, revert_to)),
            final(self).last_focus_out is None,
            final(self).config == old(self).config,
            final(self).path == old(self).path,
            final(self).running == old(self).running,
            final(self).external_root == old(self).external_root,
            final(self).error_overlay == old(self).error_overlay,
            final(self).error_start == old(self).error_start,
    {
        self.overlay = Some(window);
        self.prev_focus = Some((focus, revert_to));
        self.last_focus_out = None;
    }

    /// Records the error overlay window the shell created for a
    /// [`Effect::ShowErrorOverlay`] request.
    pub fn error_overlay_created(&mut self, window: u32)
        ensures
            final(self).error_overlay == Some(window),
            final(self).config == old(self).config,
            final(self).path == old(self).path,
            final(self).running == old(self).running,
            final(self).external_root == old(self).external_root,
            final(self).overlay == old(self).overlay,
            final(self).error_start == old(self).error_start,
            final(self).prev_focus == old(self).prev_focus,
            final(self).last_focus_out == old(self).last_focus_out,
    {
        self.error_overlay = Some(window);
    }

    /// Installs a successfully reloaded configuration: it replaces the
    /// old one wholesale and navigation resets to its root.
    pub fn finish_reload_ok(&mut self, config: Config)
        ensures
            final(self).wf(),
            final(self).config == config,
            final(self).path@.len() == 0,
            final(self).running == old(self).running,
            final(self).external_root == old(self).external_root,
            final(self).overlay == old(self).overlay,
            final(self).error_overlay == old(self).error_overlay,
            final(self).error_start == old(self).error_start,
            final(self).prev_focus == old(self).prev_focus,
            final(self).last_focus_out == old(self).last_focus_out,
    {
        self.config = config;
        self.path = Vec::new();
        proof {
            assert(spec_path_views(self.path@) =~= Seq::<Seq<char>>::empty());
        }
    }

    /// Notes a failed reload: the held configuration and the active map
    /// stay exactly as they were, and — where no error overlay is already
    /// open — exactly one error overlay is requested, its auto-dismiss
    /// timer starting now.
    pub fn finish_reload_err(&mut self, message: &str, now_ms: u64) -> (r: Vec<Effect>)
        ensures
            final(self).config == old(self).config,
            final(self).path == old(self).path,
            final(self).running == old(self).running,
            final(self).external_root == old(self).external_root,
            final(self).overlay == old(self).overlay,
            final(self).error_overlay == old(self).error_overlay,
            final(self).prev_focus == old(self).prev_focus,
            final(self).last_focus_out == old(self).last_focus_out,
            match old(self).error_overlay {
                Some(_) => eff_views(r@) == Seq::<EffectView>::empty() && final(self).error_start
                    == old(self).error_start,
                None => eff_views(r@) == seq![EffectView::ShowErrorOverlay(message@)]
                    && final(self).error_start == Some(now_ms),
            },
    {
        let mut effects: Vec<Effect> = Vec::new();
        match self.error_overlay {
            Some(_) => {
                proof {
                    assert(eff_views(effects@) =~= Seq::<EffectView>::empty());
                }
            },
            None => {
                effects.push(Effect::ShowErrorOverlay { text: message.to_owned() });
                self.error_start = Some(now_ms);
                proof {
                    assert(eff_views(effects@) =~= seq![EffectView::ShowErrorOverlay(
                        message@,
                    )]);
                }
            },
        }
        effects
    }

    /// Handles one classified event.  A key press drives the chord state
    /// machine; window lifecycle events keep the overlay bookkeeping and
    /// ask for redraws, focus moves, and focus restoration.
    pub fn handle_event(
        &mut self,
        table: &SymbolTable,
        masks: &Masks,
        ev: &Event,
        now_ms: u64,
    ) -> (r: Vec<Effect>)
        requires
            old(self).wf(),
            table.has_modifier_names(),
        ensures
            final(self).wf(),
            match *ev {
                Event::KeyPress { key, state } => ({
                    let o = spec_on_key_press(
                        *table,
                        *masks,
                        old(self).spec_current(),
                        spec_path_views(old(self).path@),
                        old(self).running,
                        old(self).external_root,
                        old(self).overlay,
                        key,
                        state,
                    );
                    &&& spec_path_views(final(self).path@) == o.path
                    &&& final(self).running == o.running
                    &&& eff_views(r@) == o.effects
                    &&& final(self).config == old(self).config
                    &&& final(self).external_root == old(self).external_root
                    &&& final(self).overlay == old(self).overlay
                    &&& final(self).error_overlay == old(self).error_overlay
                    &&& final(self).error_start == old(self).error_start
                    &&& final(self).prev_focus == old(self).prev_focus
                    &&& final(self).last_focus_out == old(self).last_focus_out
                }),
                Event::ConfigureNotify { window } => ({
                    &&& *final(self) == *old(self)
                    &&& eff_views(r@) == (if old(self).overlay == Some(window) {
                        seq![EffectView::Redraw(window)]
                    } else {
                        Seq::<EffectView>::empty()
                    }).add(if old(self).error_overlay == Some(window) {
                        seq![EffectView::Redraw(window)]
                    } else {
                        Seq::<EffectView>::empty()
                    })
                }),
                Event::MapNotify { window } => ({
                    &&& *final(self) == *old(self)
                    &&& eff_views(r@) == (if old(self).overlay == Some(window) {
                        seq![EffectView::Redraw(window), EffectView::FocusOverlay(window)]
                    } else {
                        Seq::<EffectView>::empty()
                    })
                }),
                Event::FocusOut { window } => ({
                    &&& final(self).last_focus_out == (if old(self).overlay == Some(window) {
                        Some(now_ms)
                    } else {
                        old(self).last_focus_out
                    })
                    &&& final(self).config == old(self).config
                    &&& final(self).path == old(self).path
                    &&& final(self).running == old(self).running
                    &&& final(self).external_root == old(self).external_root
                    &&& final(self).overlay == old(self).overlay
                    &&& final(self).error_overlay == old(self).error_overlay
                    &&& final(self).error_start == old(self).error_start
                    &&& final(self).prev_focus == old(self).prev_focus
                    &&& eff_views(r@) == Seq::<EffectView>::empty()
                }),
                Event::FocusIn { window } => ({
                    &&& final(self).last_focus_out == (if old(self).overlay == Some(window) {
                        None
                    } else {
                        old(self).last_focus_out
                    })
                    &&& final(self).config == old(self).config
                    &&& final(self).path == old(self).path
                    &&& final(self).running == old(self).running
                    &&& final(self).external_root == old(self).external_root
                    &&& final(self).overlay == old(self).overlay
                    &&& final(self).error_overlay == old(self).error_overlay
                    &&& final(self).error_start == old(self).error_start
                    &&& final(self).prev_focus == old(self).prev_focus
                    &&& eff_views(r@) == Seq::<EffectView>::empty()
                }),
                Event::DestroyNotify { window } => ({
                    &&& final(self).overlay == (if old(self).overlay == Some(window) {
                        None
                    } else {
                        old(self).overlay
                    })
                    &&& final(self).error_overlay == (if old(self).overlay != Some(window)
                        && old(self).error_overlay == Some(window) {
                        None
                    } else {
                        old(self).error_overlay
                    })
                    &&& final(self).config == old(self).config
                    &&& final(self).path == old(self).path
                    &&& final(self).running == old(self).running
                    &&& final(self).external_root == old(self).external_root
                    &&& final(self).error_start == old(self).error_start
                    &&& final(self).prev_focus == old(self).prev_focus
                    &&& final(self).last_focus_out == old(self).last_focus_out
                    &&& eff_views(r@) == (if old(self).overlay is Some
                        && old(self).prev_focus is Some {
                        seq![EffectView::RestoreFocus(
                            (old(self).prev_focus->0).0,
                            (old(self).prev_focus->0).1,
                        )]
                    } else {
                        Seq::<EffectView>::empty()
                    })
                }),
                Event::UnmapNotify { window } => *final(self) == *old(self) && eff_views(r@)
                    == Seq::<EffectView>::empty(),
                Event::Expose { window } => *final(self) == *old(self) && eff_views(r@)
                    == Seq::<EffectView>::empty(),
                Event::Other => *final(self) == *old(self) && eff_views(r@)
                    == Seq::<EffectView>::empty(),
            },
    {
        let mut effects: Vec<Effect> = Vec::new();
        proof {
            assert(eff_views(effects@) =~= Seq::<EffectView>::empty());
        }
        match ev {
            Event::KeyPress { key, state } => {
                return self.on_key_press(table, masks, *key, *state);
            },
            Event::ConfigureNotify { window } => {
                let ghost e0 = effects@;
                match self.overlay {
                    Some(w) => if w == *window {
                        effects.push(Effect::Redraw { window: *window });
                    },
                    None => {},
                }
                let ghost e1 = effects@;
                proof {
                    assert(eff_views(e1) =~= (if self.overlay == Some(*window) {
                        seq![EffectView::Redraw(*window)]
                    } else {
                        Seq::<EffectView>::empty()
                    }));
                }
                match self.error_overlay {
                    Some(w) => if w == *window {
                        effects.push(Effect::Redraw { window: *window });
                    },
                    None => {},
                }
                proof {
                    assert(eff_views(effects@) =~= eff_views(e1).add(
                        if self.error_overlay == Some(*window) {
                            seq![EffectView::Redraw(*window)]
                        } else {
                            Seq::<EffectView>::empty()
                        },
                    ));
                }
            },
            Event::MapNotify { window } => {
                match self.overlay {
                    Some(w) => if w == *window {
                        effects.push(Effect::Redraw { window: *window });
                        effects.push(Effect::FocusOverlay { window: *window });
                        proof {
                            assert(eff_views(effects@) =~= seq![
                                EffectView::Redraw(*window),
                                EffectView::FocusOverlay(*window),
                            ]);
                        }
                    },
                    None => {},
                }
            },
            Event::FocusOut { window } => {
                match self.overlay {
                    Some(w) => if w == *window {
                        self.last_focus_out = Some(now_ms);
                    },
                    None => {},
                }
            },
            Event::FocusIn { window } => {
                match self.overlay {
                    Some(w) => if w == *window {
                        self.last_focus_out = None;
                    },
                    None => {},
                }
            },
            Event::DestroyNotify { window } => {
                match (self.overlay, self.prev_focus) {
                    (Some(_), Some((focus, revert_to))) => {
                        effects.push(Effect::RestoreFocus { window: focus, revert_to });
                        proof {
                            assert(eff_views(effects@) =~= seq![EffectView::RestoreFocus(
                                focus,
                                revert_to,
                            )]);
                        }
                    },
                    _ => {},
                }
                let mut cleared = false;
                match self.overlay {
                    Some(w) => if w == *window {
                        self.overlay = None;
                        cleared = true;
                    },
                    None => {},
                }
                if !cleared {
                    match self.error_overlay {
                        Some(w) => if w == *window {
                            self.error_overlay = None;
                        },
                        None => {},
                    }
                }
            },
            Event::UnmapNotify { window: _ } => {},
            Event::Expose { window: _ } => {},
            Event::Other => {},
        }
        effects
    }
}

/// Extending a path by one key descends through one lookup.
pub proof fn lemma_map_at_snoc(entries: Seq<MapEntry>, path: Seq<Seq<char>>, k: Seq<char>)
    ensures
        spec_map_at(entries, path.push(k)) == (match spec_map_at(entries, path) {
            Some(cur) => match spec_lookup(cur, k) {
                Some(desc) => match desc.action {
                    Action::Submap(m) => Some(m.entries@),
                    _ => None::<Seq<MapEntry>>,
                },
                None => None::<Seq<MapEntry>>,
            },
            None => None::<Seq<MapEntry>>,
        }),
{
    assert(path.push(k) =~= path.add(seq![k]));
    lemma_map_at_append(entries, path, seq![k]);
    assert(seq![k].skip(1) =~= Seq::<Seq<char>>::empty());
    reveal_with_fuel(spec_map_at, 3);
}

/// Whether some entry of the root map has the given text among the
/// comma-separated alternatives of its key.
pub open spec fn spec_root_key_found(entries: Seq<MapEntry>, root: Seq<char>) -> bool {
    exists|i: int| 0 <= i < entries.len()
        && (#[trigger] spec_split(entries[i].key@, ',')).contains(root)
}

/// Looks for the external root key among the root map's keys and, where
/// found, builds the synthetic key press that stands in for the global
/// grab: the parsed combination's key with its physical state mask.
/// Fails with `UnknownKey` when the matching text does not parse.
pub fn root_key_event(
    table: &SymbolTable,
    masks: &Masks,
    config: &Config,
    root_key: &str,
) -> (r: Result<Option<Event>, Error>)
    ensures
        match r {
            Ok(opt) => match opt {
                Some(ev) => spec_root_key_found(config.map.entries@, root_key@)
                    && crate::combination::spec_parse(*table, root_key@) is Some
                    && ({
                        let c = crate::combination::spec_parse(*table, root_key@)->0;
                        ev == (Event::KeyPress {
                            key: c.key,
                            state: masks.spec_mask_to_x11(c.modifiers),
                        })
                    }),
                None => !spec_root_key_found(config.map.entries@, root_key@),
            },
            Err(e) => e == Error::UnknownKey
                && spec_root_key_found(config.map.entries@, root_key@)
                && crate::combination::spec_parse(*table, root_key@) is None,
        },
{
    let n = config.map.entries.len();
    let mut i: usize = 0;
    while i < n
        invariant
            i <= n == config.map.entries@.len(),
            forall|j: int| 0 <= j < i
                ==> !(#[trigger] spec_split(config.map.entries@[j].key@, ',')).contains(
                    root_key@,
                ),
        decreases n - i,
    {
        let toks = split_str(config.map.entries[i].key.as_str(), ',');
        if views_contain(&toks, root_key) {
            proof {
                assert(spec_split(config.map.entries@[i as int].key@, ',').contains(root_key@));
            }
            return match Combination::parse(table, root_key) {
                Ok(c) => {
                    let st = masks.mask_to_x11(c.modifiers);
                    let ev = Event::KeyPress { key: c.key, state: st };
                    proof {
                        let cs = crate::combination::spec_parse(*table, root_key@)->0;
                        assert(c == cs);
                        assert(spec_root_key_found(config.map.entries@, root_key@));
                    }
                    Ok(Some(ev))
                },
                Err(e) => Err(e),
            };
        }
        i = i + 1;
    }
    proof {
        assert(!spec_root_key_found(config.map.entries@, root_key@));
    }
    Ok(None)
}

/// Die graceful close: a press that reaches a terminal list holding `Die`
/// while an overlay is open stops the engine, but the very last effect it
/// asks for is the overlay's destruction — the window closes out before
/// the run can end, and the loop keeps going until the destroy
/// notification arrives, since the engine continues while an overlay is
/// live.
pub proof fn lemma_die_graceful(
    t: SymbolTable,
    m: Masks,
    cur: Seq<MapEntry>,
    path: Seq<Seq<char>>,
    running: bool,
    external: bool,
    w: u32,
    key: u32,
    state: u32,
)
    requires
        !spec_is_modifier(t, key),
        ({
            let s = spec_resolve_alias(
                cur,
                spec_format(t, Combination { key, modifiers: m.spec_x11_to_mask(state) }),
            );
            &&& spec_lookup(cur, s) is Some
            &&& !(spec_lookup(cur, s)->0.action is Submap)
            &&& spec_op_died(spec_op_list(spec_lookup(cur, s)->0.action))
        }),
    ensures
        ({
            let o = spec_on_key_press(t, m, cur, path, running, external, Some(w), key, state);
            &&& !o.running
            &&& o.effects.len() >= 1
            &&& o.effects.last() == EffectView::DestroyOverlay(w)
        }),
{
    let s = spec_resolve_alias(
        cur,
        spec_format(t, Combination { key, modifiers: m.spec_x11_to_mask(state) }),
    );
    let ops = spec_op_list(spec_lookup(cur, s)->0.action);
    let o = spec_on_key_press(t, m, cur, path, running, external, Some(w), key, state);
    assert(o.effects == spec_op_effects(ops).add(seq![EffectView::DestroyOverlay(w)]));
    assert(o.effects.last() == EffectView::DestroyOverlay(w));
}

/// Reload isolation, the state half: the active map is a function of the
/// held configuration and the navigation path alone — so a failed reload,
/// which `finish_reload_err` promises leaves both untouched, leaves the
/// active navigation map's content exactly as it was.
pub proof fn lemma_reload_isolation(a: Engine, b: Engine)
    requires
        a.config == b.config,
        a.path == b.path,
    ensures
        a.spec_current() == b.spec_current(),
        a.wf() == b.wf(),
{
}

/// Alias equivalence, at the resolution step: two texts that are both
/// comma-separated alternatives of the same entry's key — an entry no
/// earlier entry aliases either of them to — resolve to the same text,
/// namely that entry's full key.
pub proof fn lemma_alias_equivalence(
    entries: Seq<MapEntry>,
    k: int,
    s1: Seq<char>,
    s2: Seq<char>,
)
    requires
        0 <= k < entries.len(),
        spec_split(entries[k].key@, ',').contains(s1),
        spec_split(entries[k].key@, ',').contains(s2),
        forall|j: int| 0 <= j < k
            ==> !(#[trigger] spec_split(entries[j].key@, ',')).contains(s1)
                && !spec_split(entries[j].key@, ',').contains(s2),
    ensures
        spec_resolve_alias(entries, s1) == spec_resolve_alias(entries, s2),
    decreases k,
{
    if k == 0 {
        assert(spec_resolve_alias(entries, s1) == spec_resolve_alias(
            entries.skip(1),
            entries[0].key@,
        ));
        assert(spec_resolve_alias(entries, s2) == spec_resolve_alias(
            entries.skip(1),
            entries[0].key@,
        ));
    } else {
        assert(entries.skip(1)[k - 1] == entries[k]);
        assert forall|j: int| 0 <= j < k - 1 implies !(#[trigger] spec_split(
            entries.skip(1)[j].key@,
            ',',
        )).contains(s1) && !spec_split(entries.skip(1)[j].key@, ',').contains(s2) by {
            assert(entries.skip(1)[j] == entries[j + 1]);
            assert(!spec_split(entries[j + 1].key@, ',').contains(s1));
            assert(!spec_split(entries[j + 1].key@, ',').contains(s2));
        }
        lemma_alias_equivalence(entries.skip(1), k - 1, s1, s2);
    }
}

/// Alias equivalence, at the machine's step: two key presses whose
/// canonical texts are both alternatives of the same entry's key — and
/// which no earlier entry aliases — drive the machine to the same
/// outcome: the same descent, the same overlay text, the same effects.
pub proof fn lemma_alias_equivalent_presses(
    t: SymbolTable,
    m: Masks,
    cur: Seq<MapEntry>,
    path: Seq<Seq<char>>,
    running: bool,
    external: bool,
    overlay: Option<u32>,
    key1: u32,
    state1: u32,
    key2: u32,
    state2: u32,
    k: int,
)
    requires
        !spec_is_modifier(t, key1),
        !spec_is_modifier(t, key2),
        0 <= k < cur.len(),
        ({
            let s1 = spec_format(t, Combination {
                key: key1,
                modifiers: m.spec_x11_to_mask(state1),
            });
            let s2 = spec_format(t, Combination {
                key: key2,
                modifiers: m.spec_x11_to_mask(state2),
            });
            &&& spec_split(cur[k].key@, ',').contains(s1)
            &&& spec_split(cur[k].key@, ',').contains(s2)
            &&& forall|j: int| 0 <= j < k
                ==> !(#[trigger] spec_split(cur[j].key@, ',')).contains(s1)
                    && !spec_split(cur[j].key@, ',').contains(s2)
        }),
    ensures
        spec_on_key_press(t, m, cur, path, running, external, overlay, key1, state1)
            == spec_on_key_press(t, m, cur, path, running, external, overlay, key2, state2),
{
    let s1 = spec_format(t, Combination { key: key1, modifiers: m.spec_x11_to_mask(state1) });
    let s2 = spec_format(t, Combination { key: key2, modifiers: m.spec_x11_to_mask(state2) });
    lemma_alias_equivalence(cur, k, s1, s2);
}

} // verus!
