//! The tunable parameters of a running simulation: their values, the
//! history of changes made by hand, and the replay of a recorded history.
//!
//! The value type is generic; the runtime uses `f32`.
use vstd::prelude::*;
use crate::text::str_eq;

verus! {

/// One change of a parameter: at which tick, which parameter, what value.
#[derive(Clone)]
pub struct ParamChange<V> {
    pub tick: u32,
    pub param: String,
    pub value: V,
}

pub struct ParamState<V> {
    pub values: Vec<V>,
    pub defaults: Vec<V>,
    pub names: Vec<String>,
    /// The parameter the controls act on.
    pub selected: usize,
    pub title: String,
    pub running: bool,
    pub tick: u32,
    /// Changes made by hand, in order.
    pub history: Vec<ParamChange<V>>,
    /// A recorded history being replayed.
    pub replay: Vec<ParamChange<V>>,
    /// How many changes of `replay` have been applied.
    pub replay_cursor: usize,
}

/// The names of the parameters as text.
pub open spec fn name_seq(names: Seq<String>) -> Seq<Seq<char>> {
    names.map_values(|n: String| n@)
}

/// The position of the first parameter with this name, if any.
pub open spec fn position_of(names: Seq<Seq<char>>, n: Seq<char>) -> Option<int>
    decreases names.len(),
{
    if names.len() == 0 {
        None
    } else {
        match position_of(names.drop_last(), n) {
            Some(i) => Some(i),
            None => if names.last() == n { Some(names.len() - 1) } else { None },
        }
    }
}

/// The first change at or after `from` that lies beyond `tick`, or the end.
pub open spec fn pending_end<V>(replay: Seq<ParamChange<V>>, from: int, tick: u32) -> int
    decreases replay.len() - from,
{
    if 0 <= from < replay.len() && replay[from].tick <= tick { pending_end(replay, from + 1, tick) } else { from }
}

/// `values` after the changes `replay[from..to]`, in order; a change of an
/// unknown parameter is skipped.
pub open spec fn apply_changes<V>(values: Seq<V>, names: Seq<Seq<char>>, replay: Seq<ParamChange<V>>, from: int, to: int) -> Seq<V>
    decreases to - from,
{
    if from < to {
        let c = replay[from];
        let next = match position_of(names, c.param@) {
            Some(i) => values.update(i, c.value),
            None => values,
        };
        apply_changes(next, names, replay, from + 1, to)
    } else {
        values
    }
}

proof fn lemma_position_bound(names: Seq<Seq<char>>, n: Seq<char>)
    ensures
        position_of(names, n) matches Some(i) ==> 0 <= i < names.len() && names[i] == n,
        position_of(names, n) is None ==> !names.contains(n),
    decreases names.len(),
{
    if names.len() > 0 {
        lemma_position_bound(names.drop_last(), n);
        if position_of(names, n) is None {
            assert forall|k: int| 0 <= k < names.len() implies names[k] != n by {
                if k < names.len() - 1 {
                    assert(names.drop_last()[k] == names[k]);
                }
            }
        }
    }
}

/// A found position is a valid index.
pub proof fn lemma_position_in_bounds(names: Seq<Seq<char>>, n: Seq<char>)
    ensures
        position_of(names, n) matches Some(i) ==> 0 <= i < names.len(),
{
    lemma_position_bound(names, n);
}

proof fn lemma_position_prefix(names: Seq<Seq<char>>, n: Seq<char>, k: int)
    requires
        0 <= k <= names.len(),
        position_of(names.take(k), n) is Some,
    ensures
        position_of(names, n) == position_of(names.take(k), n),
    decreases names.len() - k,
{
    if k < names.len() {
        assert(names.take(k + 1).drop_last() =~= names.take(k));
        lemma_position_prefix(names, n, k + 1);
    } else {
        assert(names.take(k) =~= names);
    }
}

/// The position of the first parameter with this name (see [`position_of`]).
pub fn find_param(names: &Vec<String>, n: &str) -> (r: Option<usize>)
    ensures
        match r {
            Some(i) => position_of(name_seq(names@), n@) == Some(i as int),
            None => position_of(name_seq(names@), n@) is None,
        },
{
    let ghost ns = name_seq(names@);
    let len = names.len();
    let mut i: usize = 0;
    while i < len
        invariant
            len == names.len(),
            ns == name_seq(names@),
            0 <= i <= len,
            position_of(ns.take(i as int), n@) is None,
        decreases len - i,
    {
        proof { assert(ns.take(i as int + 1).drop_last() =~= ns.take(i as int)); }
        if str_eq(names[i].as_str(), n) {
            proof {
                assert(ns[i as int] == n@);
                lemma_position_prefix(ns, n@, i as int + 1);
            }
            return Some(i);
        }
        i = i + 1;
    }
    assert(ns.take(len as int) =~= ns);
    None
}

impl<V: Copy> ParamState<V> {
    /// Everything but the values, the history and the replay cursor is as in `other`.
    pub open spec fn same_setup(&self, other: &Self) -> bool {
        &&& self.defaults@ == other.defaults@
        &&& self.names@ == other.names@
        &&& self.selected == other.selected
        &&& self.title@ == other.title@
        &&& self.running == other.running
        &&& self.tick == other.tick
        &&& self.replay@ == other.replay@
    }

    /// Sets a parameter; a change made while no replay is loaded is
    /// recorded in the history with the current tick.
    pub fn set_param(&mut self, idx: usize, value: V)
        requires
            idx < old(self).values.len(),
            old(self).replay@.len() == 0 ==> idx < old(self).names.len(),
        ensures
            final(self).values@ == old(self).values@.update(idx as int, value),
            final(self).history@ == if old(self).replay@.len() == 0 {
                old(self).history@.push(ParamChange { tick: old(self).tick, param: old(self).names@[idx as int], value })
            } else {
                old(self).history@
            },
            final(self).replay_cursor == old(self).replay_cursor,
            final(self).same_setup(&*old(self)),
    {
        self.values[idx] = value;
        if self.replay.len() == 0 {
            let change = ParamChange { tick: self.tick, param: self.names[idx].clone(), value };
            self.history.push(change);
        }
    }

    /// Applies, in order, every change of the replay not applied yet whose
    /// tick is not beyond the current tick.
    pub fn apply_pending_replay(&mut self)
        requires
            pending_fit(old(self).values.len() as nat, name_seq(old(self).names@), old(self).replay@,
                old(self).replay_cursor as int, old(self).tick),
        ensures
            final(self).replay_cursor == pending_end(old(self).replay@, old(self).replay_cursor as int, old(self).tick),
            final(self).values@ == apply_changes(old(self).values@, name_seq(old(self).names@), old(self).replay@,
                old(self).replay_cursor as int, final(self).replay_cursor as int),
            final(self).history@ == old(self).history@,
            final(self).same_setup(&*old(self)),
    {
        let ghost names = name_seq(self.names@);
        let ghost replay = self.replay@;
        let ghost start = self.replay_cursor as int;
        let ghost tick = self.tick;
        let ghost v0 = self.values@;
        proof {
            if start <= replay.len() {
                lemma_pending_end_stops(replay, start, tick);
            }
        }
        while self.replay_cursor < self.replay.len() && self.replay[self.replay_cursor].tick <= self.tick
            invariant
                names == name_seq(self.names@),
                replay == self.replay@,
                tick == self.tick,
                pending_fit(self.values.len() as nat, names, replay, start, tick),
                start <= self.replay_cursor,
                self.replay_cursor <= self.replay.len() || self.replay_cursor == start,
                self.replay_cursor <= pending_end(replay, start, tick),
                start == old(self).replay_cursor,
                v0 == old(self).values@,
                pending_end(replay, start, tick) == pending_end(replay, self.replay_cursor as int, tick),
                apply_changes(v0, names, replay, start, self.replay_cursor as int) == self.values@,
                self.history@ == old(self).history@,
                self.same_setup(&*old(self)),
            decreases self.replay.len() - self.replay_cursor,
        {
            let cur = self.replay_cursor;
            let found = find_param(&self.names, self.replay[cur].param.as_str());
            proof {
                lemma_position_bound(names, replay[cur as int].param@);
                lemma_apply_step(v0, names, replay, start, cur as int);
                lemma_pending_end_stops(replay, cur as int + 1, tick);
                assert(pending_end(replay, cur as int, tick) == pending_end(replay, cur as int + 1, tick));
            }
            if let Some(idx) = found {
                let value = self.replay[cur].value;
                self.values[idx] = value;
            }
            self.replay_cursor = cur + 1;
        }
    }

    /// Forgets the recorded history and any loaded replay.
    pub fn clear_history(&mut self)
        ensures
            final(self).history@.len() == 0,
            final(self).replay@.len() == 0,
            final(self).replay_cursor == 0,
            final(self).values@ == old(self).values@,
            final(self).defaults@ == old(self).defaults@,
            final(self).names@ == old(self).names@,
            final(self).selected == old(self).selected,
            final(self).title@ == old(self).title@,
            final(self).running == old(self).running,
            final(self).tick == old(self).tick,
    {
        self.history.clear();
        self.replay.clear();
        self.replay_cursor = 0;
    }

    /// Whether a recorded history is loaded.
    pub fn is_replaying(&self) -> (r: bool)
        ensures
            r == (self.replay@.len() > 0),
    {
        self.replay.len() > 0
    }
}

/// The keys of the parameter panel.
#[derive(Clone, Copy)]
pub enum PanelKey {
    Up,
    Down,
    Left,
    Right,
    /// Back to the default value.
    Default,
    Save,
    Quit,
    Other,
}

/// What the panel does after a key, beyond changing the state.
#[derive(Clone, Copy, PartialEq, Eq, Structural)]
pub enum PanelAction {
    Nothing,
    /// Divide parameter `i` by the step factor.
    Decrease(usize),
    /// Multiply parameter `i` by the step factor.
    Increase(usize),
    Save,
    Quit,
}

impl<V: Copy> ParamState<V> {
    /// The panel's reaction to a key. With no parameters only quitting is
    /// possible; otherwise the arrows move the selection (up and down, not
    /// past either end) or scale the selected value (left and right), the
    /// default key restores the selected parameter's default through
    /// [`ParamState::set_param`], and quitting clears `running`.
    pub fn on_panel_key(&mut self, key: PanelKey) -> (a: PanelAction)
        requires
            old(self).values.len() > 0 && key is Default ==> {
                &&& old(self).selected < old(self).values.len()
                &&& old(self).replay@.len() == 0 ==> old(self).selected < old(self).names.len()
                &&& old(self).selected < old(self).defaults.len()
            },
        ensures
            final(self).values@.len() == old(self).values@.len(),
            final(self).title@ == old(self).title@,
            key is Quit ==> final(self).selected == old(self).selected && final(self).values@ == old(self).values@
                && final(self).history@ == old(self).history@,
            final(self).defaults@ == old(self).defaults@,
            final(self).names@ == old(self).names@,
            final(self).tick == old(self).tick,
            final(self).replay@ == old(self).replay@,
            final(self).replay_cursor == old(self).replay_cursor,
            key is Quit ==> a is Quit && !final(self).running,
            !(key is Quit) ==> final(self).running == old(self).running,
            old(self).values.len() == 0 && !(key is Quit) ==> a is Nothing && final(self).selected == old(self).selected
                && final(self).values@ == old(self).values@ && final(self).history@ == old(self).history@,
            old(self).values.len() > 0 ==> {
                let i = old(self).selected;
                &&& key is Up ==> a is Nothing && final(self).selected == (if i > 0 { (i - 1) as usize } else { i })
                &&& key is Down ==> a is Nothing
                    && final(self).selected == (if i + 1 < old(self).values.len() { (i + 1) as usize } else { i })
                &&& key is Left ==> a == PanelAction::Decrease(i) && final(self).selected == i
                &&& key is Right ==> a == PanelAction::Increase(i) && final(self).selected == i
                &&& key is Save ==> a is Save && final(self).selected == i
                &&& key is Other ==> a is Nothing && final(self).selected == i
                &&& key is Default ==> a is Nothing && final(self).selected == i
                    && final(self).values@ == old(self).values@.update(i as int, old(self).defaults@[i as int])
                    && final(self).history@ == if old(self).replay@.len() == 0 {
                        old(self).history@.push(ParamChange {
                            tick: old(self).tick,
                            param: old(self).names@[i as int],
                            value: old(self).defaults@[i as int],
                        })
                    } else {
                        old(self).history@
                    }
                &&& !(key is Default) ==> final(self).values@ == old(self).values@ && final(self).history@ == old(self).history@
            },
    {
        if let PanelKey::Quit = key {
            self.running = false;
            return PanelAction::Quit;
        }
        if self.values.len() == 0 {
            return PanelAction::Nothing;
        }
        match key {
            PanelKey::Up => {
                if self.selected > 0 {
                    self.selected = self.selected - 1;
                }
                PanelAction::Nothing
            }
            PanelKey::Down => {
                if self.selected < self.values.len() - 1 {
                    self.selected = self.selected + 1;
                }
                PanelAction::Nothing
            }
            PanelKey::Left => PanelAction::Decrease(self.selected),
            PanelKey::Right => PanelAction::Increase(self.selected),
            PanelKey::Default => {
                let i = self.selected;
                let d = self.defaults[i];
                self.set_param(i, d);
                PanelAction::Nothing
            }
            PanelKey::Save => PanelAction::Save,
            _ => PanelAction::Nothing,
        }
    }
}

/// Every pending change, from `from` up to the first one beyond `tick`, that
/// names a known parameter names one with a value.
pub open spec fn pending_fit<V>(n_values: nat, names: Seq<Seq<char>>, replay: Seq<ParamChange<V>>, from: int, tick: u32) -> bool {
    forall|k: int| from <= k < pending_end(replay, from, tick) ==>
        (position_of(names, (#[trigger] replay[k]).param@) matches Some(i) ==> i < n_values)
}

/// Applying one more change extends the applied range by one.
proof fn lemma_apply_step<V>(v0: Seq<V>, names: Seq<Seq<char>>, replay: Seq<ParamChange<V>>, from: int, to: int)
    requires
        from <= to < replay.len(),
    ensures
        apply_changes(v0, names, replay, from, to + 1) == {
            let c = replay[to];
            let prev = apply_changes(v0, names, replay, from, to);
            match position_of(names, c.param@) {
                Some(i) => prev.update(i, c.value),
                None => prev,
            }
        },
    decreases to - from,
{
    if from < to {
        let c = replay[from];
        let next = match position_of(names, c.param@) {
            Some(i) => v0.update(i, c.value),
            None => v0,
        };
        lemma_apply_step(next, names, replay, from + 1, to);
    } else {
        let c = replay[to];
        let next = match position_of(names, c.param@) {
            Some(i) => v0.update(i, c.value),
            None => v0,
        };
        assert(apply_changes(next, names, replay, to + 1, to + 1) == next);
        assert(apply_changes(v0, names, replay, to, to) == v0);
    }
}

// ---------------------------------------------------------------------------
// Properties
// ---------------------------------------------------------------------------

proof fn lemma_pending_end_stops<V>(replay: Seq<ParamChange<V>>, from: int, tick: u32)
    requires
        0 <= from <= replay.len(),
    ensures
        from <= pending_end(replay, from, tick) <= replay.len(),
        pending_end(replay, pending_end(replay, from, tick), tick) == pending_end(replay, from, tick),
    decreases replay.len() - from,
{
    if from < replay.len() && replay[from].tick <= tick {
        lemma_pending_end_stops(replay, from + 1, tick);
    }
}

/// Replaying is idempotent at a given tick: once the pending changes are
/// applied, the cursor stays where it is and nothing more is applied until
/// the tick advances.
pub proof fn law_replay_idempotent<V>(values: Seq<V>, names: Seq<Seq<char>>, replay: Seq<ParamChange<V>>, cursor: int, tick: u32)
    requires
        0 <= cursor <= replay.len(),
    ensures
        cursor <= pending_end(replay, cursor, tick) <= replay.len(),
        pending_end(replay, pending_end(replay, cursor, tick), tick) == pending_end(replay, cursor, tick),
        apply_changes(values, names, replay, pending_end(replay, cursor, tick), pending_end(replay, cursor, tick)) == values,
{
    lemma_pending_end_stops(replay, cursor, tick);
}

/// The changes `replay[from..to]` depend only on those entries.
proof fn lemma_apply_prefix<V>(values: Seq<V>, names: Seq<Seq<char>>, replay: Seq<ParamChange<V>>, e: ParamChange<V>, from: int, to: int)
    requires
        0 <= from <= to <= replay.len(),
    ensures
        apply_changes(values, names, replay.push(e), from, to) == apply_changes(values, names, replay, from, to),
    decreases to - from,
{
    if from < to {
        assert(replay.push(e)[from] == replay[from]);
        let c = replay[from];
        let next = match position_of(names, c.param@) {
            Some(i) => values.update(i, c.value),
            None => values,
        };
        lemma_apply_prefix(next, names, replay, e, from + 1, to);
    }
}

/// The position of a parameter's own name is its index when names are distinct.
proof fn lemma_position_distinct(names: Seq<Seq<char>>, idx: int)
    requires
        names.no_duplicates(),
        0 <= idx < names.len(),
    ensures
        position_of(names, names[idx]) == Some(idx),
{
    lemma_position_bound(names, names[idx]);
    assert(names.contains(names[idx]));
}

/// A recorded history reproduces the values it was recorded on: if
/// replaying the history onto the values `base` gives the current values,
/// then after `set_param` (outside a replay, parameter names distinct)
/// replaying the longer history onto `base` gives the new values.
pub proof fn law_history_reproduces_values<V: Copy>(base: Seq<V>, before: ParamState<V>, after: ParamState<V>, idx: usize, value: V)
    requires
        name_seq(before.names@).no_duplicates(),
        before.replay@.len() == 0,
        idx < before.values.len(),
        idx < before.names.len(),
        apply_changes(base, name_seq(before.names@), before.history@, 0, before.history@.len() as int) == before.values@,
        after.values@ == before.values@.update(idx as int, value),
        after.history@ == before.history@.push(ParamChange { tick: before.tick, param: before.names@[idx as int], value }),
        after.names@ == before.names@,
    ensures
        apply_changes(base, name_seq(after.names@), after.history@, 0, after.history@.len() as int) == after.values@,
{
    let names = name_seq(before.names@);
    let h = before.history@;
    let e = ParamChange { tick: before.tick, param: before.names@[idx as int], value };
    lemma_apply_step(base, names, h.push(e), 0, h.len() as int);
    lemma_apply_prefix(base, names, h, e, 0, h.len() as int);
    lemma_position_distinct(names, idx as int);
    assert(h.push(e)[h.len() as int] == e);
    assert(names[idx as int] == before.names@[idx as int]@);
}

} // verus!
